//! The identifier by which a machine is known to the license server.
use crate::text::{is_trimmed, is_white_space, trimmed};
use vstd::prelude::*;

verus! {

/// The file that keeps the identifier.
pub const DEVICE_ID_FILE: &'static str = "device_id.txt";

/// A lower-case hexadecimal digit.
pub open spec fn is_hex(c: char) -> bool {
    '0' <= c <= '9' || 'a' <= c <= 'f'
}

/// The text of a random (version 4) UUID: groups of 8, 4, 4, 4 and 12
/// lower-case hexadecimal digits, with the version and the variant in place.
pub open spec fn is_random_uuid(s: Seq<char>) -> bool {
    &&& s.len() == 36
    &&& forall|i: int|
        #![trigger s[i]]
        0 <= i < 36 ==> if i == 8 || i == 13 || i == 18 || i == 23 {
            s[i] == '-'
        } else {
            is_hex(s[i])
        }
    &&& s[14] == '4'
    &&& (s[19] == '8' || s[19] == '9' || s[19] == 'a' || s[19] == 'b')
}

/// `uuid::Uuid::new_v4`, written out: which identifier comes is left to
/// chance, and what holds of each is its form. Where the system offers no
/// randomness the call does not return.
#[verifier::external_body]
fn random_uuid() -> (r: String)
    ensures
        is_random_uuid(r@),
{
    uuid::Uuid::new_v4().to_string()
}

/// The identifier in the text of the identifier file: the text without the
/// white space around it, if anything is left. `None` is an unreadable file.
pub open spec fn kept_id(stored: Option<Seq<char>>) -> Option<Seq<char>> {
    match stored {
        Some(text) => if trimmed(text).len() > 0 {
            Some(trimmed(text))
        } else {
            None
        },
        None => None,
    }
}

/// What an optional string holds.
pub open spec fn opt_view(s: Option<String>) -> Option<Seq<char>> {
    match s {
        Some(s) => Some(s@),
        None => None,
    }
}

/// Reads the identifier out of the text of the identifier file.
pub fn stored_device_id(stored: &Option<String>) -> (r: Option<String>)
    ensures
        opt_view(r) == kept_id(opt_view(*stored)),
{
    match stored {
        Some(text) => {
            let id: &str = text.as_str().trim();
            if id.is_empty() {
                None
            } else {
                Some(id.to_string())
            }
        },
        None => None,
    }
}

/// The identifier of this machine.
pub struct DeviceId {
    pub id: String,
    /// The identifier is new and is to be written to the identifier file.
    pub is_new: bool,
}

/// The identifier that the file holds or, where it holds none, `fresh`, which
/// is then to be written to it.
pub fn device_id_from(stored: &Option<String>, fresh: String) -> (r: DeviceId)
    ensures
        match kept_id(opt_view(*stored)) {
            Some(id) => r.id@ == id && !r.is_new,
            None => r.id == fresh && r.is_new,
        },
{
    match stored_device_id(stored) {
        Some(id) => DeviceId { id, is_new: false },
        None => DeviceId { id: fresh, is_new: true },
    }
}

/// The identifier that the file holds or, where it holds none, a new random
/// one that is to be written to it.
pub fn device_id(stored: &Option<String>) -> (r: DeviceId)
    ensures
        match kept_id(opt_view(*stored)) {
            Some(id) => r.id@ == id && !r.is_new,
            None => is_random_uuid(r.id@) && r.is_new,
        },
{
    match stored_device_id(stored) {
        Some(id) => DeviceId { id, is_new: false },
        None => device_id_from(stored, random_uuid()),
    }
}

/// An identifier stays: a new one that was written to the file is the one
/// that the file gives back from then on.
pub proof fn law_new_id_is_kept(id: Seq<char>)
    requires
        is_random_uuid(id),
    ensures
        kept_id(Some(id)) == Some(id),
{
    assert(is_hex(id[0]));
    assert(is_hex(id[35]));
    assert(is_trimmed(id));
    crate::text::law_trimmed_is_fixed(id);
}

/// Writing back the identifier that a file holds does not change it.
pub proof fn law_kept_id_is_kept(stored: Option<Seq<char>>)
    ensures
        kept_id(stored) matches Some(id) ==> kept_id(Some(id)) == Some(id),
{
    if let Some(text) = stored {
        crate::text::law_trimmed_is_fixed(text);
    }
}

/// The identifier that a file holds is what stands between the white space in
/// it, whatever it is: it is given back, and no new one is made.
pub proof fn law_stored_id_is_used(
    front: Seq<char>,
    id: Seq<char>,
    back: Seq<char>,
    stored: Option<String>,
    fresh: String,
    kept: Option<String>,
    from: DeviceId,
    r: DeviceId,
)
    requires
        forall|i: int| 0 <= i < front.len() ==> is_white_space(#[trigger] front[i]),
        forall|i: int| 0 <= i < back.len() ==> is_white_space(#[trigger] back[i]),
        id.len() > 0,
        !is_white_space(id[0]),
        !is_white_space(id.last()),
        stored matches Some(text) && text@ == front + id + back,
        call_ensures(stored_device_id, (&stored,), kept),
        call_ensures(device_id_from, (&stored, fresh), from),
        call_ensures(device_id, (&stored,), r),
    ensures
        kept matches Some(text) && text@ == id,
        from.id@ == id && !from.is_new,
        r.id@ == id && !r.is_new,
{
    crate::text::law_trimmed_between(front, id, back);
}

/// Where there is no file, or one of white space alone, the identifier is new:
/// the fresh one that was given, or a random one.
pub proof fn law_missing_id_is_made(
    stored: Option<String>,
    fresh: String,
    kept: Option<String>,
    from: DeviceId,
    r: DeviceId,
)
    requires
        stored matches Some(text) ==> forall|i: int|
            0 <= i < text@.len() ==> is_white_space(#[trigger] text@[i]),
        call_ensures(stored_device_id, (&stored,), kept),
        call_ensures(device_id_from, (&stored, fresh), from),
        call_ensures(device_id, (&stored,), r),
    ensures
        kept is None,
        from.id == fresh && from.is_new,
        r.is_new,
        r.id@.len() == 36,
        r.id@[8] == '-' && r.id@[13] == '-' && r.id@[18] == '-' && r.id@[23] == '-',
        r.id@[14] == '4',
        forall|i: int|
            0 <= i < 36 && i != 8 && i != 13 && i != 18 && i != 23 ==> ('0' <= #[trigger] r.id@[i]
                <= '9' || 'a' <= r.id@[i] <= 'f'),
{
    if let Some(text) = stored {
        let none = Seq::<char>::empty();
        assert(text@ =~= text@ + none + none);
        crate::text::law_trimmed_between(text@, none, none);
    }
    assert(is_random_uuid(r.id@));
    assert forall|i: int| 0 <= i < 36 && i != 8 && i != 13 && i != 18 && i != 23 implies ('0'
        <= #[trigger] r.id@[i] <= '9' || 'a' <= r.id@[i] <= 'f') by {
        assert(is_hex(r.id@[i]));
    }
}

/// A machine is known by one identifier: once the identifier that was given is
/// in the file, it is given again, and is not new.
pub proof fn law_machine_keeps_its_id(
    stored: Option<String>,
    first: DeviceId,
    file: String,
    second: DeviceId,
)
    requires
        call_ensures(device_id, (&stored,), first),
        file@ == first.id@,
        call_ensures(device_id, (&Some(file),), second),
    ensures
        second.id@ == first.id@,
        !second.is_new,
{
    if first.is_new {
        law_new_id_is_kept(first.id@);
    } else {
        law_kept_id_is_kept(opt_view(stored));
    }
}

}
