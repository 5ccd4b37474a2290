//! The input gate: which paths are accepted as patches.
//!
//! A patch is a regular file named by two lower-case letters, six digits and
//! the suffix `.patch`, and no file name is accepted twice in one run.

use crate::names::NameMap;
use crate::IoFailure;
use vstd::prelude::*;
use vstd::string::StrSliceExecFns;
use vstd::string::StringExecFns;
use vstd::string::StringSliceAdditionalSpecFns;
use vstd::utf8::is_ascii_chars;

verus! {

broadcast use vstd::string::is_ascii_spec_bytes;

/// Why a path was not accepted.
#[derive(Debug)]
pub enum ValidationError {
    /// The file could not be examined.
    Io(IoFailure),
    /// The path has no file name.
    NoFilename,
    /// The file name has not the form `ab123456.patch`.
    InvalidFilename,
    /// The path does not lead to a regular file.
    NotAFile,
    /// The file name was accepted before, for the path given here.
    AlreadySeen(String),
}

impl ValidationError {
    /// The text of the error, for contracts.
    pub open spec fn spec_message(&self) -> Seq<char> {
        match self {
            ValidationError::Io(error) => error.message@,
            ValidationError::NoFilename => "no filename"@,
            ValidationError::InvalidFilename =>
                "invalid filename, expected format ab123456.patch"@,
            ValidationError::NotAFile => "not a file"@,
            ValidationError::AlreadySeen(path) => "id already seen before: "@ + path@,
        }
    }

    /// The text of the error, for logs.
    pub fn message(&self) -> (text: String)
        ensures
            text@ == self.spec_message(),
    {
        match self {
            ValidationError::Io(error) => error.message.clone(),
            ValidationError::NoFilename => "no filename".to_owned(),
            ValidationError::InvalidFilename =>
                "invalid filename, expected format ab123456.patch".to_owned(),
            ValidationError::NotAFile => "not a file".to_owned(),
            ValidationError::AlreadySeen(path) => {
                let mut text = "id already seen before: ".to_owned();
                text.append(path.as_str());
                text
            },
        }
    }
}

/// Whether `c` is one of `a` to `z`.
pub open spec fn is_lower(c: char) -> bool {
    'a' <= c <= 'z'
}

/// Whether `c` is one of `0` to `9`.
pub open spec fn is_digit(c: char) -> bool {
    '0' <= c <= '9'
}

/// Whether `id` is a patch identifier: two lower-case letters, then six digits.
pub open spec fn is_patch_id(id: Seq<char>) -> bool {
    &&& id.len() == 8
    &&& forall|i: int| 0 <= i < 2 ==> is_lower(#[trigger] id[i])
    &&& forall|i: int| 2 <= i < 8 ==> is_digit(#[trigger] id[i])
}

/// Whether `name` is the file name of a patch: an identifier and `.patch`.
pub open spec fn is_patch_file_name(name: Seq<char>) -> bool {
    &&& name.len() == 14
    &&& is_patch_id(name.subrange(0, 8))
    &&& name.subrange(8, 14) == seq!['.', 'p', 'a', 't', 'c', 'h']
}

/// An accepted patch: its path and the identifier taken from its file name.
#[derive(Debug)]
pub struct Patch {
    path: String,
    id: String,
}

impl Patch {
    /// The path, for contracts.
    pub closed spec fn spec_path(&self) -> String {
        self.path
    }

    /// The identifier, for contracts.
    pub closed spec fn spec_id(&self) -> Seq<char> {
        self.id@
    }

    #[verifier::type_invariant]
    spec fn inv(&self) -> bool {
        is_patch_id(self.id@)
    }

    /// The path that the patch was given by.
    pub fn path(&self) -> (path: &String)
        ensures
            *path == self.spec_path(),
    {
        &self.path
    }

    /// The identifier of the patch. It always has the form of an identifier.
    pub fn id(&self) -> (id: &str)
        ensures
            id@ == self.spec_id(),
            is_patch_id(id@),
    {
        proof {
            use_type_invariant(self);
        }
        self.id.as_str()
    }
}

/// What is known of the file that a path leads to.
pub type FileProbe = Result<bool, IoFailure>;

/// Accepts patches and remembers the file names that it accepted.
#[derive(Debug)]
pub struct PatchValidator {
    seen_patches: NameMap<String>,
}

impl View for PatchValidator {
    type V = Map<Seq<char>, Seq<char>>;

    /// The accepted file names, each with the first path that had it.
    closed spec fn view(&self) -> Map<Seq<char>, Seq<char>> {
        Map::new(
            |name: Seq<char>| self.seen_patches.has(name),
            |name: Seq<char>| self.seen_patches.value_of(name)@,
        )
    }
}

/// Whether a path is accepted: `file_name` is the last component of the path
/// where it has one, `is_file` says whether the path leads to a regular file,
/// and `seen` holds the names accepted so far.
pub open spec fn accepts(
    seen: Map<Seq<char>, Seq<char>>,
    file_name: Option<Seq<char>>,
    is_file: FileProbe,
) -> bool {
    &&& file_name matches Some(name)
    &&& is_patch_file_name(name)
    &&& is_file == Ok::<bool, IoFailure>(true)
    &&& !seen.dom().contains(name)
}

/// Whether `error` is the error that a path is turned away with. The first
/// failing check decides: a missing file name, a name of the wrong form, a
/// file that cannot be examined, a file that is not regular, a name seen before.
pub open spec fn rejects(
    seen: Map<Seq<char>, Seq<char>>,
    file_name: Option<Seq<char>>,
    is_file: FileProbe,
    error: ValidationError,
) -> bool {
    match file_name {
        None => error is NoFilename,
        Some(name) => if !is_patch_file_name(name) {
            error is InvalidFilename
        } else {
            match is_file {
                Err(failure) => error == ValidationError::Io(failure),
                Ok(false) => error is NotAFile,
                Ok(true) => {
                    &&& seen.dom().contains(name)
                    &&& error matches ValidationError::AlreadySeen(first)
                    &&& first@ == seen[name]
                },
            }
        },
    }
}

/// The text of an optional string.
pub open spec fn text_of(text: Option<&str>) -> Option<Seq<char>> {
    match text {
        Some(text) => Some(text@),
        None => None,
    }
}

impl PatchValidator {
    /// A validator that has accepted nothing yet.
    pub fn new() -> (validator: Self)
        ensures
            validator@ == Map::<Seq<char>, Seq<char>>::empty(),
    {
        let validator = PatchValidator { seen_patches: NameMap::new() };
        assert(validator@ =~= Map::<Seq<char>, Seq<char>>::empty());
        validator
    }

    /// Whether `filename` has the form of a patch's file name: ASCII text of
    /// length 14 that ends in `.patch` and starts with two lower-case letters
    /// and six digits.
    pub fn check_filename(filename: &str) -> (ok: bool)
        ensures
            ok == is_patch_file_name(filename@),
    {
        if !filename.is_ascii() {
            proof {
                if is_patch_file_name(filename@) {
                    let name = filename@;
                    assert forall|i: int| 0 <= i < name.len() implies '\0' <= #[trigger] name[i]
                        <= '\u{7f}' by {
                        if i < 2 {
                            assert(is_lower(name.subrange(0, 8)[i]));
                        } else if i < 8 {
                            assert(is_digit(name.subrange(0, 8)[i]));
                        } else {
                            assert(name.subrange(8, 14)[i - 8] == name[i]);
                        }
                    }
                    assert(is_ascii_chars(name));
                }
            }
            return false;
        }
        let bytes = filename.as_bytes();
        if bytes.len() != 14 {
            return false;
        }
        let ghost name = filename@;
        assert(forall|i: int| 0 <= i < 14 ==> bytes@[i] == #[trigger] name[i] as u8);
        assert(forall|i: int| 0 <= i < 14 ==> '\0' <= #[trigger] name[i] <= '\u{7f}');
        let mut i: usize = 0;
        while i < 2
            invariant
                i <= 2,
                bytes@.len() == 14,
                name == filename@,
                name.len() == 14,
                forall|j: int| 0 <= j < 14 ==> bytes@[j] == #[trigger] name[j] as u8,
                forall|j: int| 0 <= j < 14 ==> '\0' <= #[trigger] name[j] <= '\u{7f}',
                forall|j: int| 0 <= j < i ==> is_lower(#[trigger] name[j]),
            decreases 2 - i,
        {
            if !(bytes[i] >= 97 && bytes[i] <= 122) {
                proof {
                    assert(!is_lower(name[i as int]));
                    assert(name.subrange(0, 8)[i as int] == name[i as int]);
                }
                return false;
            }
            i += 1;
        }
        while i < 8
            invariant
                2 <= i <= 8,
                bytes@.len() == 14,
                name == filename@,
                name.len() == 14,
                forall|j: int| 0 <= j < 14 ==> bytes@[j] == #[trigger] name[j] as u8,
                forall|j: int| 0 <= j < 14 ==> '\0' <= #[trigger] name[j] <= '\u{7f}',
                forall|j: int| 0 <= j < 2 ==> is_lower(#[trigger] name[j]),
                forall|j: int| 2 <= j < i ==> is_digit(#[trigger] name[j]),
            decreases 8 - i,
        {
            if !(bytes[i] >= 48 && bytes[i] <= 57) {
                proof {
                    assert(!is_digit(name[i as int]));
                    assert(name.subrange(0, 8)[i as int] == name[i as int]);
                }
                return false;
            }
            i += 1;
        }
        let suffix = bytes[8] == 46 && bytes[9] == 112 && bytes[10] == 97 && bytes[11] == 116
            && bytes[12] == 99 && bytes[13] == 104;
        proof {
            let tail = name.subrange(8, 14);
            let expected = seq!['.', 'p', 'a', 't', 'c', 'h'];
            assert(forall|j: int| 0 <= j < 6 ==> tail[j] == name[j + 8]);
            if suffix {
                assert(name[8] == '.' && name[9] == 'p' && name[10] == 'a' && name[11] == 't'
                    && name[12] == 'c' && name[13] == 'h');
                assert(tail =~= expected);
                assert forall|j: int| 0 <= j < 2 implies is_lower(
                    #[trigger] name.subrange(0, 8)[j],
                ) by {
                    assert(name.subrange(0, 8)[j] == name[j]);
                }
                assert forall|j: int| 2 <= j < 8 implies is_digit(
                    #[trigger] name.subrange(0, 8)[j],
                ) by {
                    assert(name.subrange(0, 8)[j] == name[j]);
                }
            } else {
                if tail == expected {
                    assert(tail[0] == '.' && tail[1] == 'p' && tail[2] == 'a' && tail[3] == 't'
                        && tail[4] == 'c' && tail[5] == 'h');
                }
            }
        }
        suffix
    }

    /// Decides on one path. `file_name` is the last component of `path` where
    /// it has one; `is_file` says whether the path leads to a regular file, or
    /// why that could not be found out.
    ///
    /// The checks come in this order: a file name must be there, it must have
    /// the form of a patch's name, the file must be readable as a regular
    /// file, and the name must be new. A path that passes is remembered under
    /// its file name; after a rejection the validator is as it was.
    pub fn validate(&mut self, path: &str, file_name: Option<&str>, is_file: FileProbe) -> (result:
        Result<Patch, ValidationError>)
        ensures
            result is Ok <==> accepts(old(self)@, text_of(file_name), is_file),
            result matches Err(error) ==> rejects(old(self)@, text_of(file_name), is_file, error)
                && final(self)@ == old(self)@,
            result matches Ok(patch) ==> {
                &&& patch.spec_path()@ == path@
                &&& patch.spec_id() == file_name->0@.subrange(0, 8)
                &&& final(self)@ == old(self)@.insert(file_name->0@, path@)
            },
    {
        let name = match file_name {
            Some(name) => name,
            None => {
                return Err(ValidationError::NoFilename);
            },
        };
        if !Self::check_filename(name) {
            return Err(ValidationError::InvalidFilename);
        }
        match is_file {
            Err(error) => {
                return Err(ValidationError::Io(error));
            },
            Ok(false) => {
                return Err(ValidationError::NotAFile);
            },
            Ok(true) => {},
        }
        if let Some(first) = self.seen_patches.get(name) {
            return Err(ValidationError::AlreadySeen(first.clone()));
        }
        proof {
            assert(is_ascii_chars(name@)) by {
                assert forall|i: int| 0 <= i < name@.len() implies '\0' <= #[trigger] name@[i]
                    <= '\u{7f}' by {
                    if i < 2 {
                        assert(is_lower(name@.subrange(0, 8)[i]));
                    } else if i < 8 {
                        assert(is_digit(name@.subrange(0, 8)[i]));
                    } else {
                        assert(name@.subrange(8, 14)[i - 8] == name@[i]);
                    }
                }
            }
        }
        let id = name.substring_ascii(0, 8).to_owned();
        let owned_path = path.to_owned();
        let ghost before = self@;
        let ghost before_map = self.seen_patches@;
        self.seen_patches.insert(name.to_owned(), path.to_owned());
        proof {
            assert(self@ =~= before.insert(name@, path@)) by {
                assert forall|k: Seq<char>| self@.dom().contains(k) <==> before.insert(
                    name@,
                    path@,
                ).dom().contains(k) by {
                    assert(self.seen_patches@.dom().contains(k) <==> self.seen_patches.has(k));
                    assert(before_map.dom().contains(k) <==> before.dom().contains(k));
                }
                assert forall|k: Seq<char>| self@.dom().contains(k) implies #[trigger] self@[k]
                    == before.insert(name@, path@)[k] by {
                    assert(self.seen_patches@.dom().contains(k));
                    assert(self.seen_patches@[k] == self.seen_patches.value_of(k));
                    if k != name@ {
                        assert(before_map.dom().contains(k));
                        assert(before_map[k] == self.seen_patches@[k]);
                    }
                }
            }
        }
        Ok(Patch { path: owned_path, id })
    }
}

impl Default for PatchValidator {
    fn default() -> (validator: Self)
        ensures
            validator@ == Map::<Seq<char>, Seq<char>>::empty(),
    {
        PatchValidator::new()
    }
}

} // verus!
