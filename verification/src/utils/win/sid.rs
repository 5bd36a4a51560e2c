//! Security identifiers: from their binary form to text.
use crate::err::{ErrorView, ForensicError, ForensicResult};
use crate::text::{decimal, u64_to_decimal};
use crate::utils::unpack::{be_value, le_value, read_be, u32_at_pos};
use vstd::prelude::*;
use vstd::string::*;

verus! {

/// The SID of the local system account.
pub const LOCAL_SYSTEM_SID_STR: &'static str = "S-1-5-18";

/// The SID of the local system account in binary form.
pub const LOCAL_SYSTEM_SID_BIN: [u8; 12] = [
    0x01,
    0x02,
    0x00,
    0x00,
    0x00,
    0x00,
    0x00,
    0x05,
    0x12,
    0x00,
    0x00,
    0x00,
];

/// The SID of the built-in group of administrators.
pub const BUILTIN_ADMINS_SID_STR: &'static str = "S-1-5-32-544";

/// The SID of the built-in group of administrators in binary form.
pub const BUILTIN_ADMINS_SID_BIN: [u8; 16] = [
    0x01,
    0x02,
    0x00,
    0x00,
    0x00,
    0x00,
    0x00,
    0x05,
    0x20,
    0x00,
    0x00,
    0x00,
    0x20,
    0x02,
    0x00,
    0x00,
];

/// The SID of the built-in group of users.
pub const BUILTIN_USERS_SID_STR: &'static str = "S-1-5-32-545";

/// The SID of the built-in group of users in binary form.
pub const BUILTIN_USERS_SID_BIN: [u8; 16] = [
    0x01,
    0x02,
    0x00,
    0x00,
    0x00,
    0x00,
    0x00,
    0x05,
    0x20,
    0x00,
    0x00,
    0x00,
    0x21,
    0x02,
    0x00,
    0x00,
];

/// The SID of the built-in group of guests.
pub const BUILTIN_GUESTS_SID_STR: &'static str = "S-1-5-32-546";

/// The SID of the built-in group of guests in binary form.
pub const BUILTIN_GUESTS_SID_BIN: [u8; 16] = [
    0x01,
    0x02,
    0x00,
    0x00,
    0x00,
    0x00,
    0x00,
    0x05,
    0x20,
    0x00,
    0x00,
    0x00,
    0x22,
    0x02,
    0x00,
    0x00,
];

/// How many subauthorities of a SID are written: as many as its second
/// byte announces, and no more than lie whole in the buffer.
pub open spec fn written_subauthorities(sid: Seq<u8>) -> int {
    let announced = sid[1] as int;
    let present = (sid.len() - 8) / 4;
    if announced <= present {
        announced
    } else {
        present
    }
}

/// The first `count` subauthorities of a SID, each after a hyphen.
pub open spec fn subauthorities_text(sid: Seq<u8>, count: int) -> Seq<char>
    decreases count,
{
    if count <= 0 {
        Seq::<char>::empty()
    } else {
        subauthorities_text(sid, count - 1) + "-"@ + decimal(
            le_value(sid, 8 + 4 * (count - 1), 4),
        )
    }
}

/// A SID as text: `S`, the revision, the identifier authority, which is
/// the number of six bytes with the most significant first, and the
/// subauthorities, each the number of four bytes with the least significant
/// first.
pub open spec fn sid_text(sid: Seq<u8>) -> Seq<char> {
    "S-"@ + decimal(sid[0] as nat) + "-"@ + decimal(be_value(sid, 2, 6)) + subauthorities_text(
        sid,
        written_subauthorities(sid),
    )
}

/// Converts a binary SID to a string
///
/// https://learn.microsoft.com/es-es/windows/win32/secauthz/sid-components?redirectedfrom=MSDN
pub fn to_string_sid(sid: &[u8]) -> (r: ForensicResult<String>)
    ensures
        match r {
            Ok(s) => sid@.len() >= 8 && s@ == sid_text(sid@),
            Err(e) => sid@.len() < 8 && e@ == ErrorView::BadFormat(
                "SID must have at least 8 bytes"@,
            ),
        },
{
    let len = sid.len();
    if len < 8 {
        return Err(ForensicError::bad_format_str("SID must have at least 8 bytes"));
    }
    let mut id = String::from_str("S-");
    let subauthority_count = sid[1];
    let identifier_authority = read_be(sid, 2, 6);
    id.append(u64_to_decimal(sid[0] as u64).as_str());
    id.append("-");
    id.append(u64_to_decimal(identifier_authority).as_str());
    let ghost head = id@;
    let mut start: usize = 8;
    let mut done: u8 = 0;
    while done < subauthority_count && len - start >= 4
        invariant
            len == sid@.len(),
            len >= 8,
            subauthority_count == sid@[1],
            done <= subauthority_count,
            start == 8 + 4 * done,
            start <= len,
            id@ == head + subauthorities_text(sid@, done as int),
        decreases subauthority_count - done,
    {
        let tmp = u32_at_pos(sid, start);
        id.append("-");
        id.append(u64_to_decimal(tmp as u64).as_str());
        start = start + 4;
        done = done + 1;
    }
    assert(done == written_subauthorities(sid@));
    Ok(id)
}

} // verus!
