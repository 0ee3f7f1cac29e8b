use vstd::prelude::*;
use vstd::string::StringSliceAdditionalSpecFns;

verus! {

/// The part a client plays on its connection, chosen once at attach time.
#[derive(Clone, Copy, Debug, PartialEq, Eq, Structural)]
pub enum ClientRole {
    Publisher,
    Subscriber,
}

/// A role name that is neither `publisher` nor `subscriber`.
#[derive(Debug)]
pub struct InvalidRole {
    pub given: String,
}

/// ASCII lower-casing of one byte; other bytes are kept.
pub open spec fn ascii_lower(b: u8) -> u8 {
    if 65 <= b <= 90 {
        (b + 32) as u8
    } else {
        b
    }
}

/// `a` and `b` are equal up to ASCII letter case.
pub open spec fn same_ignoring_case(a: Seq<u8>, b: Seq<u8>) -> bool {
    &&& a.len() == b.len()
    &&& forall|i: int| 0 <= i < a.len() ==> ascii_lower(#[trigger] a[i]) == ascii_lower(b[i])
}

/// The bytes of `publisher`.
pub open spec fn publisher_word() -> Seq<u8> {
    seq![112u8, 117u8, 98u8, 108u8, 105u8, 115u8, 104u8, 101u8, 114u8]
}

/// The bytes of `subscriber`.
pub open spec fn subscriber_word() -> Seq<u8> {
    seq![115u8, 117u8, 98u8, 115u8, 99u8, 114u8, 105u8, 98u8, 101u8, 114u8]
}

/// The role that a role name denotes, letter case ignored.
pub open spec fn role_of(s: Seq<u8>) -> Option<ClientRole> {
    if same_ignoring_case(s, publisher_word()) {
        Some(ClientRole::Publisher)
    } else if same_ignoring_case(s, subscriber_word()) {
        Some(ClientRole::Subscriber)
    } else {
        None
    }
}

fn lower_byte(b: u8) -> (r: u8)
    ensures
        r == ascii_lower(b),
{
    if 65 <= b && b <= 90 {
        b + 32
    } else {
        b
    }
}

fn matches_word(s: &[u8], word: &Vec<u8>) -> (r: bool)
    ensures
        r == same_ignoring_case(s@, word@),
{
    if s.len() != word.len() {
        return false;
    }
    let mut i: usize = 0;
    while i < s.len()
        invariant
            s@.len() == word@.len(),
            0 <= i <= s@.len(),
            forall|j: int| 0 <= j < i ==> ascii_lower(#[trigger] s@[j]) == ascii_lower(word@[j]),
        decreases s@.len() - i,
    {
        if lower_byte(s[i]) != lower_byte(word[i]) {
            return false;
        }
        i = i + 1;
    }
    true
}

impl ClientRole {
    /// Reads a role name: `publisher` or `subscriber`, in any letter case.
    pub fn parse(s: &str) -> (r: Result<ClientRole, InvalidRole>)
        ensures
            match r {
                Ok(role) => role_of(s.spec_bytes()) == Some(role),
                Err(e) => role_of(s.spec_bytes()) is None && e.given@ == s@,
            },
    {
        let bytes = s.as_bytes();
        let publisher: Vec<u8> = vec![112u8, 117u8, 98u8, 108u8, 105u8, 115u8, 104u8, 101u8, 114u8];
        let subscriber: Vec<u8> = vec![115u8, 117u8, 98u8, 115u8, 99u8, 114u8, 105u8, 98u8, 101u8, 114u8];
        assert(publisher@ == publisher_word());
        assert(subscriber@ == subscriber_word());
        if matches_word(bytes, &publisher) {
            Ok(ClientRole::Publisher)
        } else if matches_word(bytes, &subscriber) {
            Ok(ClientRole::Subscriber)
        } else {
            Err(InvalidRole { given: s.to_owned() })
        }
    }
}

impl core::str::FromStr for ClientRole {
    type Err = InvalidRole;

    fn from_str(s: &str) -> Result<ClientRole, InvalidRole> {
        ClientRole::parse(s)
    }
}

/// Why an attach request is refused before any connection upgrade.
#[derive(Debug, Clone, Copy, PartialEq, Eq, Structural)]
pub enum AttachError {
    MissingRole,
    InvalidRole,
    MissingChannels,
    UnparsableChannels,
}

} // verus!
