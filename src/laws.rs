use vstd::prelude::*;
use crate::types::{File, Language};
use crate::decode::decoded_content;
use crate::registry::{SessionRegistry, is_creation_of, is_upload_of};
use crate::session::is_listing_of;

verus! {

/// A freshly created session lists no files.
pub proof fn fresh_session_lists_nothing(
    before: SessionRegistry,
    after: SessionRegistry,
    h: u32,
    language: Language,
    names: Seq<String>,
)
    requires
        is_creation_of(before, after, h, language),
        is_listing_of(names, after.sessions()[h].files_view()),
    ensures
        names.len() == 0,
{
    assert(after.sessions()[h].files_view().dom() =~= Set::<Seq<char>>::empty());
}

/// Uploading two files of the same name into a session leaves that name in
/// its listing exactly once: the second upload replaces the first.
pub proof fn upload_twice_lists_once(
    r0: SessionRegistry,
    r1: SessionRegistry,
    r2: SessionRegistry,
    h: u32,
    first: File,
    second: File,
    names: Seq<String>,
)
    requires
        first.name@ == second.name@,
        is_upload_of(r0, r1, h, first),
        is_upload_of(r1, r2, h, second),
        is_listing_of(names, r2.sessions()[h].files_view()),
    ensures
        exists|i: int| 0 <= i < names.len() && #[trigger] names[i]@ == first.name@,
        forall|i: int, j: int|
            0 <= i < names.len() && 0 <= j < names.len() && #[trigger] names[i]@ == first.name@
                && #[trigger] names[j]@ == first.name@ ==> i == j,
{
    assert(r2.sessions()[h].files_view().contains_key(first.name@));
    assert forall|i: int, j: int|
        0 <= i < names.len() && 0 <= j < names.len() && #[trigger] names[i]@ == first.name@
            && #[trigger] names[j]@ == first.name@ implies i == j by {
        if i < j {
            assert(names[i]@ != names[j]@);
        } else if j < i {
            assert(names[j]@ != names[i]@);
        }
    }
}

/// What a download returns after an upload is the decoded content of the
/// uploaded file, not its encoded form.
pub proof fn download_after_upload(before: SessionRegistry, after: SessionRegistry, h: u32, file: File)
    requires
        is_upload_of(before, after, h, file),
    ensures
        after.stored_file(h, file.name@) == decoded_content(file.content@, file.encoding),
{
}

/// Once a session is closed its handle names nothing: every later lookup of a
/// file under it fails.
pub proof fn closed_handle_is_gone(before: SessionRegistry, after: SessionRegistry, h: u32, name: Seq<char>)
    requires
        after.sessions() == before.sessions().remove(h),
    ensures
        !after.sessions().contains_key(h),
        after.stored_file(h, name) is None,
{
}

/// An upload into one session changes nothing that another session shows:
/// neither its files nor whether it is live.
pub proof fn sessions_isolated(
    before: SessionRegistry,
    after: SessionRegistry,
    h: u32,
    other: u32,
    file: File,
    name: Seq<char>,
)
    requires
        h != other,
        is_upload_of(before, after, h, file),
    ensures
        after.sessions().contains_key(other) == before.sessions().contains_key(other),
        after.stored_file(other, name) == before.stored_file(other, name),
{
    assert(after.sessions().remove(h).contains_key(other) == before.sessions().remove(h).contains_key(other));
    if before.sessions().contains_key(other) {
        assert(after.sessions().remove(h)[other] == before.sessions().remove(h)[other]);
    }
}

} // verus!
