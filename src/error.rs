use crate::text::{decimal_int, push_i32};
use vstd::prelude::*;

verus! {

/// A node named as parent a branch identifier that no branch holds.
#[derive(Clone, Copy, Debug, PartialEq, Eq, Structural)]
pub struct ReferenceError {
    /// The identifier that was looked up.
    pub branch: i32,
}

impl ReferenceError {
    /// The text of the error: `Branch_<branch> doesn't exist!`.
    pub open spec fn message_text(self) -> Seq<char> {
        seq!['B', 'r', 'a', 'n', 'c', 'h', '_'] + decimal_int(self.branch as int) + seq![
            ' ',
            'd',
            'o',
            'e',
            's',
            'n',
            '\'',
            't',
            ' ',
            'e',
            'x',
            'i',
            's',
            't',
            '!',
        ]
    }

    /// The text of the error.
    pub fn message(&self) -> (r: String)
        ensures
            r@ == self.message_text(),
    {
        proof {
            reveal_strlit("Branch_");
            reveal_strlit(" doesn't exist!");
        }
        let mut s = String::from_str("Branch_");
        push_i32(&mut s, self.branch);
        s.append(" doesn't exist!");
        assert(s@ =~= self.message_text());
        s
    }
}

} // verus!
