use vstd::prelude::*;
use vstd::utf8::*;
use crate::types::{Error, File, Language, supported_kind};
use crate::decode::decoded_content;
use crate::session::{ExecutionSession, is_listing_of};

verus! {

/// The map from handles to sessions that a list of entries stands for.
pub open spec fn handle_map(entries: Seq<(u32, ExecutionSession)>) -> Map<u32, ExecutionSession>
    decreases entries.len(),
{
    if entries.len() == 0 {
        Map::empty()
    } else {
        handle_map(entries.drop_last()).insert(entries.last().0, entries.last().1)
    }
}

/// No two entries share a handle.
pub open spec fn handles_unique(entries: Seq<(u32, ExecutionSession)>) -> bool {
    forall|i: int, j: int| 0 <= i < j < entries.len() ==> entries[i].0 != entries[j].0
}

proof fn lemma_handle_map_dom(entries: Seq<(u32, ExecutionSession)>, h: u32)
    ensures
        handle_map(entries).contains_key(h) <==> exists|i: int| 0 <= i < entries.len() && #[trigger] entries[i].0 == h,
    decreases entries.len(),
{
    if entries.len() > 0 {
        let front = entries.drop_last();
        lemma_handle_map_dom(front, h);
        if handle_map(front).contains_key(h) {
            let i = choose|i: int| 0 <= i < front.len() && #[trigger] front[i].0 == h;
            assert(entries[i].0 == h);
        }
        if exists|i: int| 0 <= i < entries.len() && #[trigger] entries[i].0 == h {
            let i = choose|i: int| 0 <= i < entries.len() && #[trigger] entries[i].0 == h;
            if i < entries.len() - 1 {
                assert(front[i].0 == h);
            }
        }
    }
}

proof fn lemma_handle_map_value(entries: Seq<(u32, ExecutionSession)>, i: int)
    requires
        handles_unique(entries),
        0 <= i < entries.len(),
    ensures
        handle_map(entries).contains_key(entries[i].0),
        handle_map(entries)[entries[i].0] == entries[i].1,
    decreases entries.len(),
{
    if i < entries.len() - 1 {
        let front = entries.drop_last();
        assert(handles_unique(front));
        assert(front[i] == entries[i]);
        lemma_handle_map_value(front, i);
    }
}

proof fn lemma_handle_map_update(entries: Seq<(u32, ExecutionSession)>, i: int, e: (u32, ExecutionSession))
    requires
        handles_unique(entries),
        0 <= i < entries.len(),
        e.0 == entries[i].0,
    ensures
        handles_unique(entries.update(i, e)),
        handle_map(entries.update(i, e)) == handle_map(entries).insert(e.0, e.1),
    decreases entries.len(),
{
    let updated = entries.update(i, e);
    let front = entries.drop_last();
    if i == entries.len() - 1 {
        assert(updated.drop_last() =~= front);
    } else {
        assert(handles_unique(front));
        lemma_handle_map_update(front, i, e);
        assert(updated.drop_last() =~= front.update(i, e));
        assert(handle_map(updated) =~= handle_map(entries).insert(e.0, e.1));
    }
}

proof fn lemma_handle_map_remove(entries: Seq<(u32, ExecutionSession)>, i: int)
    requires
        handles_unique(entries),
        0 <= i < entries.len(),
    ensures
        handles_unique(entries.remove(i)),
        handle_map(entries.remove(i)) == handle_map(entries).remove(entries[i].0),
    decreases entries.len(),
{
    let removed = entries.remove(i);
    let front = entries.drop_last();
    if i == entries.len() - 1 {
        assert(removed =~= front);
        lemma_handle_map_dom(front, entries[i].0);
        assert(handle_map(removed) =~= handle_map(entries).remove(entries[i].0));
    } else {
        assert(handles_unique(front));
        lemma_handle_map_remove(front, i);
        assert(removed.drop_last() =~= front.remove(i));
        assert(removed.last() == entries.last());
        assert(handle_map(removed) =~= handle_map(entries).remove(entries[i].0));
    }
}

/// The table of live sessions. Handles come from a counter that starts at 1
/// and only grows, so no handle is ever given out twice.
pub struct SessionRegistry {
    sessions: Vec<(u32, ExecutionSession)>,
    next_id: u32,
}

impl SessionRegistry {
    /// The live sessions, by handle.
    pub closed spec fn sessions(&self) -> Map<u32, ExecutionSession> {
        handle_map(self.sessions@)
    }

    /// The handle that the next successful `create` gives out.
    pub closed spec fn next_handle(&self) -> u32 {
        self.next_id
    }

    /// Handles are unique, every live handle is below the counter, the
    /// counter is at least 1, and every session is well formed.
    pub closed spec fn wf(&self) -> bool {
        &&& handles_unique(self.sessions@)
        &&& self.next_id >= 1
        &&& forall|i: int| 0 <= i < self.sessions@.len() ==> {
            &&& #[trigger] self.sessions@[i].0 < self.next_id
            &&& self.sessions@[i].1.wf()
        }
    }

    /// The sessions of a well-formed registry are well formed and their
    /// handles lie below the counter.
    pub proof fn lemma_wf_sessions(&self, h: u32)
        requires
            self.wf(),
            self.sessions().contains_key(h),
        ensures
            self.sessions()[h].wf(),
            h < self.next_handle(),
    {
        lemma_handle_map_dom(self.sessions@, h);
        let i = choose|i: int| 0 <= i < self.sessions@.len() && #[trigger] self.sessions@[i].0 == h;
        lemma_handle_map_value(self.sessions@, i);
    }

    /// An empty registry whose first handle will be 1.
    pub fn new() -> (r: Self)
        ensures
            r.wf(),
            r.sessions() == Map::<u32, ExecutionSession>::empty(),
            r.next_handle() == 1,
    {
        SessionRegistry { sessions: Vec::new(), next_id: 1 }
    }

    /// The index of the entry for `handle`, if it is live.
    fn find(&self, handle: u32) -> (r: Option<usize>)
        requires
            self.wf(),
        ensures
            match r {
                Some(i) => {
                    &&& i < self.sessions@.len()
                    &&& self.sessions@[i as int].0 == handle
                    &&& self.sessions().contains_key(handle)
                    &&& self.sessions()[handle] == self.sessions@[i as int].1
                },
                None => !self.sessions().contains_key(handle),
            },
    {
        let mut i: usize = 0;
        while i < self.sessions.len()
            invariant
                self.wf(),
                i <= self.sessions@.len(),
                forall|j: int| 0 <= j < i ==> #[trigger] self.sessions@[j].0 != handle,
            decreases self.sessions@.len() - i,
        {
            if self.sessions[i].0 == handle {
                proof {
                    lemma_handle_map_value(self.sessions@, i as int);
                }
                return Some(i);
            }
            i = i + 1;
        }
        proof {
            lemma_handle_map_dom(self.sessions@, handle);
        }
        None
    }

    /// The decoded content stored under `name` in session `h`, if both exist.
    pub open spec fn stored_file(&self, h: u32, name: Seq<char>) -> Option<Seq<u8>> {
        if self.sessions().contains_key(h) && self.sessions()[h].files_view().contains_key(name) {
            Some(self.sessions()[h].files_view()[name])
        } else {
            None
        }
    }

    /// Opens a session for `language` under a fresh handle. Refused with
    /// `UnsupportedLanguage` for any language but the one this engine runs,
    /// and with an internal error once the handles are used up.
    pub fn create(&mut self, language: Language) -> (r: Result<u32, Error>)
        requires
            old(self).wf(),
        ensures
            final(self).wf(),
            match r {
                Ok(h) => {
                    &&& language.kind == supported_kind()
                    &&& h == old(self).next_handle()
                    &&& final(self).next_handle() == h + 1
                    &&& is_creation_of(*old(self), *final(self), h, language)
                },
                Err(e) => {
                    &&& final(self).sessions() == old(self).sessions()
                    &&& final(self).next_handle() == old(self).next_handle()
                    &&& if language.kind != supported_kind() {
                        e is UnsupportedLanguage
                    } else {
                        old(self).next_handle() == u32::MAX && e is Internal
                    }
                },
            },
    {
        let session = match ExecutionSession::new(language) {
            Ok(s) => s,
            Err(e) => return Err(e),
        };
        if self.next_id == u32::MAX {
            return Err(Error::Internal("No session handles left".to_owned()));
        }
        let handle = self.next_id;
        proof {
            lemma_handle_map_dom(self.sessions@, handle);
        }
        let ghost old_entries = self.sessions@;
        self.sessions.push((handle, session));
        self.next_id = self.next_id + 1;
        proof {
            assert(self.sessions@.drop_last() =~= old_entries);
            assert(self.sessions().remove(handle) =~= handle_map(old_entries));
        }
        Ok(handle)
    }

    /// Decodes `file` into session `handle`, replacing a file of the same
    /// name. No other session is touched.
    pub fn upload(&mut self, handle: u32, file: File) -> (r: Result<(), Error>)
        requires
            old(self).wf(),
        ensures
            final(self).wf(),
            final(self).next_handle() == old(self).next_handle(),
            final(self).sessions().dom() == old(self).sessions().dom(),
            final(self).sessions().remove(handle) == old(self).sessions().remove(handle),
            match r {
                Ok(_) => is_upload_of(*old(self), *final(self), handle, file),
                Err(e) => {
                    &&& e is Internal
                    &&& final(self).sessions() == old(self).sessions()
                    &&& !old(self).sessions().contains_key(handle) || decoded_content(file.content@, file.encoding) is None
                },
            },
    {
        let i = match self.find(handle) {
            Some(i) => i,
            None => return Err(Self::session_not_found()),
        };
        let ghost old_entries = self.sessions@;
        let mut entry = self.sessions.remove(i);
        let r = entry.1.upload_file(file);
        self.sessions.insert(i, entry);
        proof {
            assert(self.sessions@ =~= old_entries.update(i as int, entry));
            lemma_handle_map_update(old_entries, i as int, entry);
            assert forall|j: int| 0 <= j < self.sessions@.len() implies {
                &&& #[trigger] self.sessions@[j].0 < self.next_id
                &&& self.sessions@[j].1.wf()
            } by {
                if j != i {
                    assert(self.sessions@[j] == old_entries[j]);
                }
            }
            assert(self.sessions().remove(handle) =~= handle_map(old_entries).remove(handle));
            if r is Err {
                assert(self.sessions() =~= handle_map(old_entries));
            }
        }
        r
    }

    /// The program text stored under `entrypoint` in session `handle`: an
    /// internal error if the session or the file does not exist, or if the
    /// content is not UTF-8 text.
    pub fn entry_source(&self, handle: u32, entrypoint: String) -> (r: Result<String, Error>)
        requires
            self.wf(),
        ensures
            match r {
                Ok(s) => {
                    &&& self.stored_file(handle, entrypoint@) is Some
                    &&& valid_utf8(self.stored_file(handle, entrypoint@).unwrap())
                    &&& s@ == decode_utf8(self.stored_file(handle, entrypoint@).unwrap())
                },
                Err(e) => e is Internal && !(self.stored_file(handle, entrypoint@) is Some
                    && valid_utf8(self.stored_file(handle, entrypoint@).unwrap())),
            },
    {
        match self.find(handle) {
            Some(i) => {
                proof {
                    self.lemma_wf_sessions(handle);
                }
                self.sessions[i].1.entry_source(&entrypoint)
            },
            None => Err(Self::session_not_found()),
        }
    }

    /// The exact decoded bytes stored under `path` in session `handle`.
    pub fn download(&self, handle: u32, path: String) -> (r: Result<Vec<u8>, Error>)
        requires
            self.wf(),
        ensures
            match r {
                Ok(v) => self.stored_file(handle, path@) == Some(v@),
                Err(e) => e is Internal && self.stored_file(handle, path@) is None,
            },
    {
        match self.find(handle) {
            Some(i) => {
                proof {
                    self.lemma_wf_sessions(handle);
                }
                self.sessions[i].1.file_content(&path)
            },
            None => Err(Self::session_not_found()),
        }
    }

    /// Every file name stored in session `handle`, each once; `dir` is not
    /// looked at, the namespace being flat.
    pub fn list_files(&self, handle: u32, dir: String) -> (r: Result<Vec<String>, Error>)
        requires
            self.wf(),
        ensures
            match r {
                Ok(names) => self.sessions().contains_key(handle)
                    && is_listing_of(names@, self.sessions()[handle].files_view()),
                Err(e) => e is Internal && !self.sessions().contains_key(handle),
            },
    {
        match self.find(handle) {
            Some(i) => {
                proof {
                    self.lemma_wf_sessions(handle);
                }
                Ok(self.sessions[i].1.file_names())
            },
            None => Err(Self::session_not_found()),
        }
    }

    /// Records `path` as the working directory of session `handle`.
    pub fn set_working_dir(&mut self, handle: u32, path: String) -> (r: Result<(), Error>)
        requires
            old(self).wf(),
        ensures
            final(self).wf(),
            final(self).next_handle() == old(self).next_handle(),
            final(self).sessions().dom() == old(self).sessions().dom(),
            final(self).sessions().remove(handle) == old(self).sessions().remove(handle),
            match r {
                Ok(_) => {
                    &&& old(self).sessions().contains_key(handle)
                    &&& final(self).sessions()[handle].working_dir_view() == path@
                    &&& final(self).sessions()[handle].files_view() == old(self).sessions()[handle].files_view()
                    &&& final(self).sessions()[handle].language_view() == old(self).sessions()[handle].language_view()
                },
                Err(e) => e is Internal && !old(self).sessions().contains_key(handle)
                    && final(self).sessions() == old(self).sessions(),
            },
    {
        let i = match self.find(handle) {
            Some(i) => i,
            None => return Err(Self::session_not_found()),
        };
        let ghost old_entries = self.sessions@;
        let mut entry = self.sessions.remove(i);
        entry.1.set_working_dir(path);
        self.sessions.insert(i, entry);
        proof {
            assert(self.sessions@ =~= old_entries.update(i as int, entry));
            lemma_handle_map_update(old_entries, i as int, entry);
            assert forall|j: int| 0 <= j < self.sessions@.len() implies {
                &&& #[trigger] self.sessions@[j].0 < self.next_id
                &&& self.sessions@[j].1.wf()
            } by {
                if j != i {
                    assert(self.sessions@[j] == old_entries[j]);
                }
            }
            assert(self.sessions().remove(handle) =~= handle_map(old_entries).remove(handle));
        }
        Ok(())
    }

    /// Removes session `handle` and its files. Closing a handle that is not
    /// live does nothing and is no error.
    pub fn close(&mut self, handle: u32)
        requires
            old(self).wf(),
        ensures
            final(self).wf(),
            final(self).next_handle() == old(self).next_handle(),
            final(self).sessions() == old(self).sessions().remove(handle),
    {
        match self.find(handle) {
            Some(i) => {
                let ghost old_entries = self.sessions@;
                self.sessions.remove(i);
                proof {
                    lemma_handle_map_remove(old_entries, i as int);
                    assert forall|j: int| 0 <= j < self.sessions@.len() implies {
                        &&& #[trigger] self.sessions@[j].0 < self.next_id
                        &&& self.sessions@[j].1.wf()
                    } by {
                        if j < i {
                            assert(self.sessions@[j] == old_entries[j]);
                        } else {
                            assert(self.sessions@[j] == old_entries[j + 1]);
                        }
                    }
                }
            },
            None => {
                proof {
                    assert(self.sessions() =~= self.sessions().remove(handle));
                }
            },
        }
    }

    fn session_not_found() -> (r: Error)
        ensures
            r is Internal,
    {
        Error::Internal("Session not found".to_owned())
    }
}

/// `after` is `before` with a new, empty session for `language` under the
/// handle `h`, which was not live before.
pub open spec fn is_creation_of(before: SessionRegistry, after: SessionRegistry, h: u32, language: Language) -> bool {
    &&& !before.sessions().contains_key(h)
    &&& after.sessions().contains_key(h)
    &&& after.sessions().remove(h) == before.sessions()
    &&& after.sessions()[h].files_view() == Map::<Seq<char>, Seq<u8>>::empty()
    &&& after.sessions()[h].working_dir_view() == "/"@
    &&& after.sessions()[h].language_view() == language
}

/// `after` is `before` with `file`, decoded, stored under its name in
/// session `h`, and nothing else changed.
pub open spec fn is_upload_of(before: SessionRegistry, after: SessionRegistry, h: u32, file: File) -> bool {
    &&& before.sessions().contains_key(h)
    &&& decoded_content(file.content@, file.encoding) is Some
    &&& after.sessions().dom() == before.sessions().dom()
    &&& after.sessions().remove(h) == before.sessions().remove(h)
    &&& after.sessions()[h].files_view() == before.sessions()[h].files_view().insert(
        file.name@, decoded_content(file.content@, file.encoding).unwrap())
    &&& after.sessions()[h].working_dir_view() == before.sessions()[h].working_dir_view()
    &&& after.sessions()[h].language_view() == before.sessions()[h].language_view()
}

} // verus!
