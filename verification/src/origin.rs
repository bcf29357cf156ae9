//! Origins and their canonical string form.
//!
//! An [`Origin`] is the scheme / host / optional port triple carried by the
//! `Origin` request header. Its canonical form is `scheme://host` or
//! `scheme://host:port`; whitelist matching elsewhere in the crate is exact
//! string comparison on this form.

use vstd::prelude::*;

verus! {

/// The decimal digit character for a single digit value.
pub open spec fn digit_char(d: nat) -> char {
    if d == 0 {
        '0'
    } else if d == 1 {
        '1'
    } else if d == 2 {
        '2'
    } else if d == 3 {
        '3'
    } else if d == 4 {
        '4'
    } else if d == 5 {
        '5'
    } else if d == 6 {
        '6'
    } else if d == 7 {
        '7'
    } else if d == 8 {
        '8'
    } else {
        '9'
    }
}

/// The decimal representation of `n`, most significant digit first,
/// without leading zeros (`0` itself is `"0"`).
pub open spec fn spec_decimal(n: nat) -> Seq<char>
    decreases n,
{
    if n < 10 {
        seq![digit_char(n)]
    } else {
        spec_decimal(n / 10) + seq![digit_char(n % 10)]
    }
}

/// A decimal representation is never empty.
pub proof fn lemma_decimal_len(n: nat)
    ensures
        spec_decimal(n).len() >= 1,
    decreases n,
{
    if n >= 10 {
        lemma_decimal_len(n / 10);
    }
}

fn digit_str(d: u16) -> (r: &'static str)
    requires
        d < 10,
    ensures
        r@ == seq![digit_char(d as nat)],
{
    if d == 0 {
        proof {
            reveal_strlit("0");
        }
        assert(("0")@ =~= seq![digit_char(d as nat)]);
        "0"
    } else if d == 1 {
        proof {
            reveal_strlit("1");
        }
        assert(("1")@ =~= seq![digit_char(d as nat)]);
        "1"
    } else if d == 2 {
        proof {
            reveal_strlit("2");
        }
        assert(("2")@ =~= seq![digit_char(d as nat)]);
        "2"
    } else if d == 3 {
        proof {
            reveal_strlit("3");
        }
        assert(("3")@ =~= seq![digit_char(d as nat)]);
        "3"
    } else if d == 4 {
        proof {
            reveal_strlit("4");
        }
        assert(("4")@ =~= seq![digit_char(d as nat)]);
        "4"
    } else if d == 5 {
        proof {
            reveal_strlit("5");
        }
        assert(("5")@ =~= seq![digit_char(d as nat)]);
        "5"
    } else if d == 6 {
        proof {
            reveal_strlit("6");
        }
        assert(("6")@ =~= seq![digit_char(d as nat)]);
        "6"
    } else if d == 7 {
        proof {
            reveal_strlit("7");
        }
        assert(("7")@ =~= seq![digit_char(d as nat)]);
        "7"
    } else if d == 8 {
        proof {
            reveal_strlit("8");
        }
        assert(("8")@ =~= seq![digit_char(d as nat)]);
        "8"
    } else {
        proof {
            reveal_strlit("9");
        }
        assert(("9")@ =~= seq![digit_char(d as nat)]);
        "9"
    }
}

/// Renders `n` in decimal.
pub fn decimal_string(n: u16) -> (r: String)
    ensures
        r@ == spec_decimal(n as nat),
    decreases n,
{
    if n < 10 {
        String::from_str(digit_str(n))
    } else {
        let mut s = decimal_string(n / 10);
        s.append(digit_str(n % 10));
        s
    }
}

/// The scheme / host / optional port triple from an `Origin` request header.
///
/// Parsing the header into this triple is the caller's concern; the crate
/// only reads the three components.
#[derive(Debug)]
pub struct Origin {
    pub scheme: String,
    pub host: String,
    pub port: Option<u16>,
}

/// The canonical string form of an origin: `scheme://host`, with `:port`
/// appended when a port is present. Nothing is case-folded or trimmed.
pub open spec fn spec_canonical(o: Origin) -> Seq<char> {
    o.scheme@ + "://"@ + o.host@ + match o.port {
        Some(p) => ":"@ + spec_decimal(p as nat),
        None => Seq::<char>::empty(),
    }
}

impl Origin {
    /// Builds the canonical string form of this origin.
    pub fn canonical(&self) -> (r: String)
        ensures
            r@ == spec_canonical(*self),
    {
        let mut s = self.scheme.clone();
        s.append("://");
        s.append(self.host.as_str());
        match self.port {
            Some(p) => {
                s.append(":");
                let digits = decimal_string(p);
                s.append(digits.as_str());
            },
            None => {},
        }
        assert(s@ =~= spec_canonical(*self));
        s
    }
}

/// Two origins that agree on scheme and host but differ in whether they
/// carry a port never share a canonical form: an operator must list the
/// port explicitly for it to match.
pub proof fn lemma_canonical_port_sensitive(a: Origin, b: Origin)
    requires
        a.scheme@ == b.scheme@,
        a.host@ == b.host@,
        a.port is None,
        b.port is Some,
    ensures
        spec_canonical(a) != spec_canonical(b),
{
    if let Some(p) = b.port {
        lemma_decimal_len(p as nat);
        assert(spec_canonical(b).len() > spec_canonical(a).len());
    }
}

} // verus!
