use vstd::prelude::*;

verus! {

/// What `str::to_uppercase` makes of a string.
pub uninterp spec fn upper_of(s: Seq<char>) -> Seq<char>;

/// Relies on `str::to_uppercase`: the upper-case form depends on the characters alone.
#[verifier::external_body]
fn to_uppercase(s: &str) -> (r: String)
    ensures
        r@ == upper_of(s@),
{
    s.to_uppercase()
}

/// A DIN 476 / ISO 216 paper size.
#[allow(non_camel_case_types)]
#[derive(Clone, Copy, Debug, PartialEq, Eq, Structural)]
pub enum DIN {
    A0_4,
    A0_2,
    A0,
    A1,
    A2,
    A3,
    A4,
    A5,
    A6,
    A7,
    A8,
    A9,
    A10,
}

/// The paper size whose upper-case name is `upper`, if any.
pub open spec fn din_of_upper(upper: Seq<char>) -> Option<DIN> {
    if upper == seq!['4', 'A', '0'] {
        Some(DIN::A0_4)
    }     else if upper == seq!['2', 'A', '0'] {
        Some(DIN::A0_2)
    }     else if upper == seq!['A', '0'] {
        Some(DIN::A0)
    }     else if upper == seq!['A', '1'] {
        Some(DIN::A1)
    }     else if upper == seq!['A', '2'] {
        Some(DIN::A2)
    }     else if upper == seq!['A', '3'] {
        Some(DIN::A3)
    }     else if upper == seq!['A', '4'] {
        Some(DIN::A4)
    }     else if upper == seq!['A', '5'] {
        Some(DIN::A5)
    }     else if upper == seq!['A', '6'] {
        Some(DIN::A6)
    }     else if upper == seq!['A', '7'] {
        Some(DIN::A7)
    }     else if upper == seq!['A', '8'] {
        Some(DIN::A8)
    }     else if upper == seq!['A', '9'] {
        Some(DIN::A9)
    }     else if upper == seq!['A', '1', '0'] {
        Some(DIN::A10)
    } else {
        None
    }
}

impl DIN {
    /// Width and height of the sheet in portrait orientation, in millimetres.
    pub open spec fn size_spec(self) -> (u64, u64) {
        match self {
            DIN::A0_4 => (1682, 2378),
            DIN::A0_2 => (1189, 1682),
            DIN::A0 => (841, 1189),
            DIN::A1 => (594, 841),
            DIN::A2 => (420, 594),
            DIN::A3 => (297, 420),
            DIN::A4 => (210, 297),
            DIN::A5 => (148, 210),
            DIN::A6 => (105, 148),
            DIN::A7 => (74, 105),
            DIN::A8 => (52, 74),
            DIN::A9 => (37, 52),
            DIN::A10 => (26, 37),
        }
    }

    /// The short and the long side of the sheet, in millimetres.
    pub fn size(&self) -> (r: (u64, u64))
        ensures
            r == self.size_spec(),
    {
        match self {
            DIN::A0_4 => (1682, 2378),
            DIN::A0_2 => (1189, 1682),
            DIN::A0 => (841, 1189),
            DIN::A1 => (594, 841),
            DIN::A2 => (420, 594),
            DIN::A3 => (297, 420),
            DIN::A4 => (210, 297),
            DIN::A5 => (148, 210),
            DIN::A6 => (105, 148),
            DIN::A7 => (74, 105),
            DIN::A8 => (52, 74),
            DIN::A9 => (37, 52),
            DIN::A10 => (26, 37),
        }
    }

    /// The paper size named by `s`, compared without regard to case.
    pub fn from_name(s: &str) -> (r: Option<DIN>)
        ensures
            r == din_of_upper(upper_of(s@)),
    {
        let upper = to_uppercase(s);
        proof {
            reveal_strlit("4A0");
            assert("4A0"@ =~= seq!['4', 'A', '0']);
        }
        if upper == "4A0".to_owned() {
            return Some(DIN::A0_4);
        }
        proof {
            reveal_strlit("2A0");
            assert("2A0"@ =~= seq!['2', 'A', '0']);
        }
        if upper == "2A0".to_owned() {
            return Some(DIN::A0_2);
        }
        proof {
            reveal_strlit("A0");
            assert("A0"@ =~= seq!['A', '0']);
        }
        if upper == "A0".to_owned() {
            return Some(DIN::A0);
        }
        proof {
            reveal_strlit("A1");
            assert("A1"@ =~= seq!['A', '1']);
        }
        if upper == "A1".to_owned() {
            return Some(DIN::A1);
        }
        proof {
            reveal_strlit("A2");
            assert("A2"@ =~= seq!['A', '2']);
        }
        if upper == "A2".to_owned() {
            return Some(DIN::A2);
        }
        proof {
            reveal_strlit("A3");
            assert("A3"@ =~= seq!['A', '3']);
        }
        if upper == "A3".to_owned() {
            return Some(DIN::A3);
        }
        proof {
            reveal_strlit("A4");
            assert("A4"@ =~= seq!['A', '4']);
        }
        if upper == "A4".to_owned() {
            return Some(DIN::A4);
        }
        proof {
            reveal_strlit("A5");
            assert("A5"@ =~= seq!['A', '5']);
        }
        if upper == "A5".to_owned() {
            return Some(DIN::A5);
        }
        proof {
            reveal_strlit("A6");
            assert("A6"@ =~= seq!['A', '6']);
        }
        if upper == "A6".to_owned() {
            return Some(DIN::A6);
        }
        proof {
            reveal_strlit("A7");
            assert("A7"@ =~= seq!['A', '7']);
        }
        if upper == "A7".to_owned() {
            return Some(DIN::A7);
        }
        proof {
            reveal_strlit("A8");
            assert("A8"@ =~= seq!['A', '8']);
        }
        if upper == "A8".to_owned() {
            return Some(DIN::A8);
        }
        proof {
            reveal_strlit("A9");
            assert("A9"@ =~= seq!['A', '9']);
        }
        if upper == "A9".to_owned() {
            return Some(DIN::A9);
        }
        proof {
            reveal_strlit("A10");
            assert("A10"@ =~= seq!['A', '1', '0']);
        }
        if upper == "A10".to_owned() {
            return Some(DIN::A10);
        }
        None
    }
}

} // verus!
