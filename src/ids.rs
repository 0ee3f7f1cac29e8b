use vstd::prelude::*;
use vstd::string::StringSliceAdditionalSpecFns;

verus! {

/// The byte that separates channel ids in an attach request.
pub const SEPARATOR: u8 = 44;

/// The identifier (as an integer) that uuid reads from these bytes, if any.
pub uninterp spec fn uuid_from_ascii(b: Seq<u8>) -> Option<u128>;

/// Relies on `uuid::Uuid::try_parse_ascii`: the id written in `b` (hexadecimal
/// digits with optional hyphens, braces or a urn prefix), as a 128-bit integer.
/// Only inputs of 32, 36, 38 or 45 bytes can be read.
#[verifier::external_body]
fn parse_uuid_ascii(b: &[u8]) -> (r: Option<u128>)
    ensures
        r == uuid_from_ascii(b@),
        r is Some ==> (b@.len() == 32 || b@.len() == 36 || b@.len() == 38 || b@.len() == 45),
{
    match uuid::Uuid::try_parse_ascii(b) {
        Ok(u) => Some(u.as_u128()),
        Err(_) => None,
    }
}

/// The pieces of `s` between separators, left to right; an empty input is one
/// empty piece, as is the text after a trailing separator.
pub open spec fn split_fields(s: Seq<u8>) -> Seq<Seq<u8>>
    decreases s.len(),
{
    if s.len() == 0 {
        seq![Seq::<u8>::empty()]
    } else {
        let head = split_fields(s.drop_last());
        if s.last() == SEPARATOR {
            head.push(Seq::<u8>::empty())
        } else {
            head.update(head.len() - 1, head.last().push(s.last()))
        }
    }
}

/// Every piece is a readable id.
pub open spec fn all_ids(fields: Seq<Seq<u8>>) -> bool {
    forall|j: int| 0 <= j < fields.len() ==> (#[trigger] uuid_from_ascii(fields[j])) is Some
}

/// The ids that the pieces denote, in order.
pub open spec fn ids_of(fields: Seq<Seq<u8>>) -> Seq<u128> {
    fields.map_values(|f: Seq<u8>| uuid_from_ascii(f)->Some_0)
}

fn split_on_separator(s: &[u8]) -> (r: Vec<Vec<u8>>)
    ensures
        r@.map_values(|v: Vec<u8>| v@) == split_fields(s@),
{
    let mut done: Vec<Vec<u8>> = Vec::new();
    let mut cur: Vec<u8> = Vec::new();
    let mut i: usize = 0;
    while i < s.len()
        invariant
            0 <= i <= s@.len(),
            done@.map_values(|v: Vec<u8>| v@).push(cur@) == split_fields(s@.subrange(0, i as int)),
        decreases s@.len() - i,
    {
        let b = s[i];
        proof {
            assert(s@.subrange(0, i + 1).drop_last() == s@.subrange(0, i as int));
        }
        if b == SEPARATOR {
            let piece = cur;
            done.push(piece);
            cur = Vec::new();
            assert(done@.map_values(|v: Vec<u8>| v@).push(cur@) =~= split_fields(s@.subrange(0, i + 1)));
        } else {
            cur.push(b);
            assert(done@.map_values(|v: Vec<u8>| v@).push(cur@) =~= split_fields(s@.subrange(0, i + 1)));
        }
        i = i + 1;
    }
    assert(s@.subrange(0, s@.len() as int) == s@);
    let ghost before = done@;
    done.push(cur);
    assert(done@.map_values(|v: Vec<u8>| v@) =~= before.map_values(|v: Vec<u8>| v@).push(done@.last()@));
    done
}

/// Reads a comma-separated list of channel ids. The list is refused as a whole
/// (`None`) as soon as one piece is not an id; an empty piece is not an id.
pub fn parse_uuids(ids: &str) -> (r: Option<Vec<u128>>)
    ensures
        r is Some <==> all_ids(split_fields(ids.spec_bytes())),
        r matches Some(v) ==> v@ == ids_of(split_fields(ids.spec_bytes())),
{
    let fields = split_on_separator(ids.as_bytes());
    let ghost f = split_fields(ids.spec_bytes());
    let mut out: Vec<u128> = Vec::new();
    let mut j: usize = 0;
    while j < fields.len()
        invariant
            f == split_fields(ids.spec_bytes()),
            fields@.map_values(|v: Vec<u8>| v@) == f,
            0 <= j <= fields@.len(),
            out@ == ids_of(f).subrange(0, j as int),
            forall|k: int| 0 <= k < j ==> (#[trigger] uuid_from_ascii(f[k])) is Some,
        decreases fields@.len() - j,
    {
        assert(fields@[j as int]@ == f[j as int]);
        match parse_uuid_ascii(fields[j].as_slice()) {
            Some(id) => {
                out.push(id);
                assert(out@ =~= ids_of(f).subrange(0, j + 1));
            },
            None => {
                assert(uuid_from_ascii(f[j as int]) is None);
                assert(!all_ids(f));
                return None;
            },
        }
        j = j + 1;
    }
    assert(out@ =~= ids_of(f));
    Some(out)
}

} // verus!
