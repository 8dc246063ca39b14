use vstd::prelude::*;
use vstd::utf8::*;
use crate::types::{Error, File, Language, LanguageKind, supported_kind};
use crate::decode::{decode_content, decoded_content, utf8_text};
use crate::errors::boundary_error;

verus! {

/// The map from names to contents that a list of file entries stands for;
/// a later entry wins over an earlier one of the same name.
pub open spec fn entries_map(entries: Seq<(String, Vec<u8>)>) -> Map<Seq<char>, Seq<u8>>
    decreases entries.len(),
{
    if entries.len() == 0 {
        Map::empty()
    } else {
        entries_map(entries.drop_last()).insert(entries.last().0@, entries.last().1@)
    }
}

/// No two entries share a name.
pub open spec fn names_unique(entries: Seq<(String, Vec<u8>)>) -> bool {
    forall|i: int, j: int| 0 <= i < j < entries.len() ==> entries[i].0@ != entries[j].0@
}

proof fn lemma_entries_map_dom(entries: Seq<(String, Vec<u8>)>, k: Seq<char>)
    ensures
        entries_map(entries).contains_key(k) <==> exists|i: int| 0 <= i < entries.len() && #[trigger] entries[i].0@ == k,
    decreases entries.len(),
{
    if entries.len() > 0 {
        let front = entries.drop_last();
        lemma_entries_map_dom(front, k);
        if entries_map(front).contains_key(k) {
            let i = choose|i: int| 0 <= i < front.len() && #[trigger] front[i].0@ == k;
            assert(entries[i].0@ == k);
        }
        if exists|i: int| 0 <= i < entries.len() && #[trigger] entries[i].0@ == k {
            let i = choose|i: int| 0 <= i < entries.len() && #[trigger] entries[i].0@ == k;
            if i < entries.len() - 1 {
                assert(front[i].0@ == k);
            }
        }
    }
}

proof fn lemma_entries_map_value(entries: Seq<(String, Vec<u8>)>, i: int)
    requires
        names_unique(entries),
        0 <= i < entries.len(),
    ensures
        entries_map(entries).contains_key(entries[i].0@),
        entries_map(entries)[entries[i].0@] == entries[i].1@,
    decreases entries.len(),
{
    if i < entries.len() - 1 {
        let front = entries.drop_last();
        assert(names_unique(front));
        assert(front[i] == entries[i]);
        lemma_entries_map_value(front, i);
    }
}

proof fn lemma_entries_map_update(entries: Seq<(String, Vec<u8>)>, i: int, e: (String, Vec<u8>))
    requires
        names_unique(entries),
        0 <= i < entries.len(),
        e.0@ == entries[i].0@,
    ensures
        names_unique(entries.update(i, e)),
        entries_map(entries.update(i, e)) == entries_map(entries).insert(e.0@, e.1@),
    decreases entries.len(),
{
    let updated = entries.update(i, e);
    let front = entries.drop_last();
    if i == entries.len() - 1 {
        assert(updated.drop_last() =~= front);
    } else {
        assert(names_unique(front));
        lemma_entries_map_update(front, i, e);
        assert(updated.drop_last() =~= front.update(i, e));
        assert(entries.last().0@ != e.0@);
        assert(entries_map(updated) =~= entries_map(entries).insert(e.0@, e.1@));
    }
}

/// `names` names every file of `files` exactly once, and nothing else.
pub open spec fn is_listing_of(names: Seq<String>, files: Map<Seq<char>, Seq<u8>>) -> bool {
    &&& names.len() == files.dom().len()
    &&& forall|i: int, j: int| 0 <= i < j < names.len() ==> names[i]@ != names[j]@
    &&& forall|k: Seq<char>| files.contains_key(k) <==> exists|i: int| 0 <= i < names.len() && #[trigger] names[i]@ == k
}

/// One session: its language, its file table and its recorded working
/// directory.
pub struct ExecutionSession {
    language: Language,
    files: Vec<(String, Vec<u8>)>,
    working_dir: String,
}

impl ExecutionSession {
    /// The session's files, by name.
    pub closed spec fn files_view(&self) -> Map<Seq<char>, Seq<u8>> {
        entries_map(self.files@)
    }

    /// The recorded working directory.
    pub closed spec fn working_dir_view(&self) -> Seq<char> {
        self.working_dir@
    }

    /// The language the session was created for.
    pub closed spec fn language_view(&self) -> Language {
        self.language
    }

    /// The file table holds each name once.
    pub closed spec fn wf(&self) -> bool {
        names_unique(self.files@)
    }

    /// Opens a session for `language`, with no files and `/` as working
    /// directory; refused for any language but the one this engine runs.
    pub fn new(language: Language) -> (r: Result<Self, Error>)
        ensures
            match r {
                Ok(s) => {
                    &&& language.kind == supported_kind()
                    &&& s.wf()
                    &&& s.files_view() == Map::<Seq<char>, Seq<u8>>::empty()
                    &&& s.working_dir_view() == "/"@
                    &&& s.language_view() == language
                },
                Err(e) => language.kind != supported_kind() && e is UnsupportedLanguage,
            },
    {
        if language.kind != LanguageKind::Javascript {
            return Err(Error::UnsupportedLanguage);
        }
        Ok(ExecutionSession { language, files: Vec::new(), working_dir: "/".to_owned() })
    }

    /// The index of the entry named `name`, if there is one.
    fn find_file(&self, name: &String) -> (r: Option<usize>)
        ensures
            match r {
                Some(i) => i < self.files@.len() && self.files@[i as int].0@ == name@,
                None => forall|i: int| 0 <= i < self.files@.len() ==> #[trigger] self.files@[i].0@ != name@,
            },
    {
        let mut i: usize = 0;
        while i < self.files.len()
            invariant
                i <= self.files@.len(),
                forall|j: int| 0 <= j < i ==> #[trigger] self.files@[j].0@ != name@,
            decreases self.files@.len() - i,
        {
            if self.files[i].0 == *name {
                return Some(i);
            }
            i = i + 1;
        }
        None
    }

    /// Decodes `file` and stores it under its name, replacing any earlier
    /// file of that name. On a decoding failure the session is unchanged.
    pub fn upload_file(&mut self, file: File) -> (r: Result<(), Error>)
        requires
            old(self).wf(),
        ensures
            final(self).wf(),
            final(self).language_view() == old(self).language_view(),
            final(self).working_dir_view() == old(self).working_dir_view(),
            match r {
                Ok(_) => decoded_content(file.content@, file.encoding) is Some
                    && final(self).files_view() == old(self).files_view().insert(
                        file.name@, decoded_content(file.content@, file.encoding).unwrap()),
                Err(e) => decoded_content(file.content@, file.encoding) is None
                    && e is Internal
                    && *final(self) == *old(self),
            },
    {
        let content = match decode_content(&file) {
            Ok(c) => c,
            Err(e) => return Err(boundary_error(e)),
        };
        let ghost old_files = self.files@;
        match self.find_file(&file.name) {
            Some(i) => {
                let entry = (file.name, content);
                proof {
                    lemma_entries_map_update(old_files, i as int, entry);
                }
                self.files.set(i, entry);
            },
            None => {
                let entry = (file.name, content);
                self.files.push(entry);
                proof {
                    assert(self.files@.drop_last() =~= old_files);
                }
            },
        }
        Ok(())
    }

    /// The stored content of `path`, or an internal error if no such file is
    /// stored.
    pub fn file_content(&self, path: &String) -> (r: Result<Vec<u8>, Error>)
        requires
            self.wf(),
        ensures
            match r {
                Ok(v) => self.files_view().contains_key(path@) && v@ == self.files_view()[path@],
                Err(e) => !self.files_view().contains_key(path@) && e is Internal,
            },
    {
        match self.find_file(path) {
            Some(i) => {
                proof {
                    lemma_entries_map_value(self.files@, i as int);
                }
                Ok(self.files[i].1.clone())
            },
            None => {
                proof {
                    lemma_entries_map_dom(self.files@, path@);
                }
                let mut m = "File '".to_owned();
                m.append(path.as_str());
                m.append("' not found");
                Err(Error::Internal(m))
            },
        }
    }

    /// The program text stored under `entrypoint`: an internal error if no
    /// such file is stored or its content is not UTF-8 text.
    pub fn entry_source(&self, entrypoint: &String) -> (r: Result<String, Error>)
        requires
            self.wf(),
        ensures
            match r {
                Ok(s) => {
                    &&& self.files_view().contains_key(entrypoint@)
                    &&& valid_utf8(self.files_view()[entrypoint@])
                    &&& s@ == decode_utf8(self.files_view()[entrypoint@])
                },
                Err(e) => e is Internal && !(self.files_view().contains_key(entrypoint@)
                    && valid_utf8(self.files_view()[entrypoint@])),
            },
    {
        match self.find_file(entrypoint) {
            Some(i) => {
                proof {
                    lemma_entries_map_value(self.files@, i as int);
                }
                match utf8_text(&self.files[i].1) {
                    Ok(s) => Ok(s),
                    Err(detail) => {
                        let mut m = "Invalid UTF-8 in JavaScript code: ".to_owned();
                        m.append(detail.as_str());
                        Err(Error::Internal(m))
                    },
                }
            },
            None => {
                proof {
                    lemma_entries_map_dom(self.files@, entrypoint@);
                }
                let mut m = "Entrypoint file '".to_owned();
                m.append(entrypoint.as_str());
                m.append("' not found");
                Err(Error::Internal(m))
            },
        }
    }

    /// The names of all stored files, each once, in no particular order.
    pub fn file_names(&self) -> (r: Vec<String>)
        requires
            self.wf(),
        ensures
            is_listing_of(r@, self.files_view()),
    {
        let mut names: Vec<String> = Vec::new();
        let mut i: usize = 0;
        while i < self.files.len()
            invariant
                i <= self.files@.len(),
                names@.len() == i,
                forall|j: int| 0 <= j < i ==> #[trigger] names@[j]@ == self.files@[j].0@,
            decreases self.files@.len() - i,
        {
            names.push(self.files[i].0.clone());
            i = i + 1;
        }
        proof {
            assert forall|k: Seq<char>| self.files_view().contains_key(k) <==> exists|i: int| 0 <= i < names@.len() && #[trigger] names@[i]@ == k by {
                lemma_entries_map_dom(self.files@, k);
                if exists|i: int| 0 <= i < names@.len() && #[trigger] names@[i]@ == k {
                    let i = choose|i: int| 0 <= i < names@.len() && #[trigger] names@[i]@ == k;
                    assert(self.files@[i].0@ == k);
                }
                if exists|i: int| 0 <= i < self.files@.len() && #[trigger] self.files@[i].0@ == k {
                    let i = choose|i: int| 0 <= i < self.files@.len() && #[trigger] self.files@[i].0@ == k;
                    assert(names@[i]@ == k);
                }
            }
            lemma_dom_len(self.files@);
        }
        names
    }

    /// Records `path` as the working directory.
    pub fn set_working_dir(&mut self, path: String)
        ensures
            final(self).working_dir_view() == path@,
            final(self).files_view() == old(self).files_view(),
            final(self).language_view() == old(self).language_view(),
            final(self).wf() == old(self).wf(),
    {
        self.working_dir = path;
    }

    /// The recorded working directory.
    pub fn working_dir(&self) -> (r: &String)
        ensures
            r@ == self.working_dir_view(),
    {
        &self.working_dir
    }
}

proof fn lemma_dom_len(entries: Seq<(String, Vec<u8>)>)
    requires
        names_unique(entries),
    ensures
        entries_map(entries).dom().finite(),
        entries_map(entries).dom().len() == entries.len(),
    decreases entries.len(),
{
    if entries.len() > 0 {
        let front = entries.drop_last();
        assert(names_unique(front));
        lemma_dom_len(front);
        lemma_entries_map_dom(front, entries.last().0@);
        assert(!entries_map(front).contains_key(entries.last().0@));
    }
}

} // verus!
