//! Checks on what the caller hands in, made before anything is launched:
//! a file path must hold no `..`, none of a set of shell metacharacters,
//! and an extension of the allow-list; an argument for the child must hold
//! none of a narrower set of characters.

use crate::text::{
    chars_of, contains_text, holds_char, holds_text, lowercase, lowercase_of, optional_text,
    same_text,
};
use vstd::prelude::*;
use vstd::string::*;

verus! {

/// Why an input was refused.
#[derive(Debug, PartialEq, Eq)]
pub enum ValidationError {
    /// The path holds `..`.
    PathTraversal,
    /// The path holds the shell metacharacter `found`.
    ForbiddenCharacter { found: char },
    /// The extension of the path, here in lower case and with its dot, is
    /// not of the allow-list; `None` where the path has no extension.
    UnsupportedType { extension: Option<String> },
    /// The argument `argument` holds the character `found`.
    DangerousArgument { found: char, argument: String },
    /// A batch names no file.
    EmptyBatch,
}

/// `ValidationError` with its texts as sequences of characters.
pub enum ValidationErrorModel {
    PathTraversal,
    ForbiddenCharacter { found: char },
    UnsupportedType { extension: Option<Seq<char>> },
    DangerousArgument { found: char, argument: Seq<char> },
    EmptyBatch,
}

impl View for ValidationError {
    type V = ValidationErrorModel;

    open spec fn view(&self) -> ValidationErrorModel {
        match self {
            ValidationError::PathTraversal => ValidationErrorModel::PathTraversal,
            ValidationError::ForbiddenCharacter { found } => {
                ValidationErrorModel::ForbiddenCharacter { found: *found }
            },
            ValidationError::UnsupportedType { extension } => {
                ValidationErrorModel::UnsupportedType { extension: optional_text(*extension) }
            },
            ValidationError::DangerousArgument { found, argument } => {
                ValidationErrorModel::DangerousArgument { found: *found, argument: argument@ }
            },
            ValidationError::EmptyBatch => ValidationErrorModel::EmptyBatch,
        }
    }
}

impl ValidationErrorModel {
    /// The text that tells the caller why the input was refused.
    pub open spec fn message(self) -> Seq<char> {
        match self {
            ValidationErrorModel::PathTraversal => "Invalid file path: path traversal detected"@,
            ValidationErrorModel::ForbiddenCharacter { found } => {
                "Invalid file path: forbidden character '"@ + seq![found] + "' detected"@
            },
            ValidationErrorModel::UnsupportedType { extension: Some(extension) } => {
                "Unsupported file type '"@ + extension
                    + "'. Only .txt, .md, .doc, .docx, .rtf are allowed."@
            },
            ValidationErrorModel::UnsupportedType { extension: None } => {
                "File has no extension. Only .txt and .md are allowed."@
            },
            ValidationErrorModel::DangerousArgument { found, argument } => {
                "Invalid argument: forbidden character '"@ + seq![found] + "' detected in '"@
                    + argument + "'"@
            },
            ValidationErrorModel::EmptyBatch => "No files provided for batch processing"@,
        }
    }
}

impl ValidationError {
    /// The text that tells the caller why the input was refused.
    pub fn message(&self) -> (text: String)
        ensures
            text@ == self@.message(),
    {
        match self {
            ValidationError::PathTraversal => String::from_str(
                "Invalid file path: path traversal detected",
            ),
            ValidationError::ForbiddenCharacter { found } => {
                let mut text = String::from_str("Invalid file path: forbidden character '");
                text.push(*found);
                text.append("' detected");
                assert(text@ =~= self@.message());
                text
            },
            ValidationError::UnsupportedType { extension: Some(extension) } => {
                let mut text = String::from_str("Unsupported file type '");
                text.append(extension.as_str());
                text.append("'. Only .txt, .md, .doc, .docx, .rtf are allowed.");
                text
            },
            ValidationError::UnsupportedType { extension: None } => String::from_str(
                "File has no extension. Only .txt and .md are allowed.",
            ),
            ValidationError::DangerousArgument { found, argument } => {
                let mut text = String::from_str("Invalid argument: forbidden character '");
                text.push(*found);
                text.append("' detected in '");
                text.append(argument.as_str());
                text.append("'");
                assert(text@ =~= self@.message());
                text
            },
            ValidationError::EmptyBatch => String::from_str(
                "No files provided for batch processing",
            ),
        }
    }
}

/// A verdict of this module: accepted, or refused with the reason.
pub type Verdict = Result<(), ValidationErrorModel>;

/// The view of a result of this module.
pub open spec fn verdict_of(result: Result<(), ValidationError>) -> Verdict {
    match result {
        Ok(()) => Ok(()),
        Err(error) => Err(error@),
    }
}

/// The characters that no file path may hold, in the order in which they
/// are looked for.
pub open spec fn path_forbidden() -> Seq<char> {
    seq!['|', ';', '&', '$', '`', '>', '<', '!', '{', '}']
}

/// The characters that no argument may hold, in the order in which they
/// are looked for.
pub open spec fn argument_forbidden() -> Seq<char> {
    seq!['|', ';', '&', '$', '`']
}

/// The first character of `listed`, from position `from` on, that `text`
/// holds.
pub open spec fn first_listed_from(text: Seq<char>, listed: Seq<char>, from: int) -> Option<char>
    decreases listed.len() - from,
{
    if from < 0 || from >= listed.len() {
        None
    } else if text.contains(listed[from]) {
        Some(listed[from])
    } else {
        first_listed_from(text, listed, from + 1)
    }
}

/// The first character of `listed`, in the order of `listed`, that `text`
/// holds.
pub open spec fn first_listed(text: Seq<char>, listed: Seq<char>) -> Option<char> {
    first_listed_from(text, listed, 0)
}

/// `text` holds no character of `listed`.
pub open spec fn free_of(text: Seq<char>, listed: Seq<char>) -> bool {
    forall|i: int| 0 <= i < listed.len() ==> !text.contains(#[trigger] listed[i])
}

/// The path holds two dots in a row.
pub open spec fn has_double_dot(path: Seq<char>) -> bool {
    contains_text(path, seq!['.', '.'])
}

/// The extension of a path as `std::path::Path::extension` finds it, for
/// the platform that the library is built for: the part of the file name
/// behind its last dot, `None` where the path has no file name, where the
/// name holds no dot, or where its only dot stands at its front.
pub uninterp spec fn extension_of(path: Seq<char>) -> Option<Seq<char>>;

/// Calls `std::path::Path::extension` on `path`. Its result is a function
/// of the path alone; the contract gives it the name `extension_of` and
/// claims nothing else of it.
#[verifier::external_body]
fn path_extension(path: &str) -> (extension: Option<String>)
    ensures
        extension is Some == extension_of(path@) is Some,
        extension matches Some(text) ==> extension_of(path@) == Some(text@),
{
    match std::path::Path::new(path).extension() {
        Some(extension) => Some(extension.to_string_lossy().into_owned()),
        None => None,
    }
}

/// The extension of a path in lower case.
pub open spec fn lowered_extension(path: Seq<char>) -> Option<Seq<char>> {
    match extension_of(path) {
        Some(extension) => Some(lowercase_of(extension)),
        None => None,
    }
}

/// The extensions, in lower case and without dot, of the files that are
/// taken.
pub open spec fn allowed_extension(lowered: Seq<char>) -> bool {
    ||| lowered == "txt"@
    ||| lowered == "md"@
    ||| lowered == "doc"@
    ||| lowered == "docx"@
    ||| lowered == "rtf"@
}

/// The verdict on an extension in lower case.
pub open spec fn extension_verdict(lowered: Option<Seq<char>>) -> Verdict {
    match lowered {
        Some(extension) => if allowed_extension(extension) {
            Ok(())
        } else {
            Err(ValidationErrorModel::UnsupportedType { extension: Some(seq!['.'] + extension) })
        },
        None => Err(ValidationErrorModel::UnsupportedType { extension: None }),
    }
}

/// The verdict on a file path: `..` is looked for first, then the
/// forbidden characters, then the extension.
pub open spec fn path_verdict(path: Seq<char>) -> Verdict {
    if has_double_dot(path) {
        Err(ValidationErrorModel::PathTraversal)
    } else {
        match first_listed(path, path_forbidden()) {
            Some(found) => Err(ValidationErrorModel::ForbiddenCharacter { found }),
            None => extension_verdict(lowered_extension(path)),
        }
    }
}

/// The verdict on one argument.
pub open spec fn argument_verdict(argument: Seq<char>) -> Verdict {
    match first_listed(argument, argument_forbidden()) {
        Some(found) => Err(ValidationErrorModel::DangerousArgument { found, argument }),
        None => Ok(()),
    }
}

/// The verdict on the arguments from position `from` on: that of the
/// first argument that is refused.
pub open spec fn arguments_verdict_from(arguments: Seq<Seq<char>>, from: int) -> Verdict
    decreases arguments.len() - from,
{
    if from < 0 || from >= arguments.len() {
        Ok(())
    } else if argument_verdict(arguments[from]) is Err {
        argument_verdict(arguments[from])
    } else {
        arguments_verdict_from(arguments, from + 1)
    }
}

/// The verdict on a list of arguments: that of the first argument that is
/// refused.
pub open spec fn arguments_verdict(arguments: Seq<Seq<char>>) -> Verdict {
    arguments_verdict_from(arguments, 0)
}

/// Every argument is free of the characters that no argument may hold.
pub open spec fn arguments_clean(arguments: Seq<Seq<char>>) -> bool {
    forall|i: int|
        0 <= i < arguments.len() ==> free_of(#[trigger] arguments[i], argument_forbidden())
}

/// The texts of a list of strings.
pub open spec fn texts_of(strings: Seq<String>) -> Seq<Seq<char>> {
    Seq::new(strings.len(), |i: int| strings[i]@)
}

fn forbidden_in_paths() -> (listed: Vec<char>)
    ensures
        listed@ == path_forbidden(),
{
    let listed = vec!['|', ';', '&', '$', '`', '>', '<', '!', '{', '}'];
    assert(listed@ =~= path_forbidden());
    listed
}

fn forbidden_in_arguments() -> (listed: Vec<char>)
    ensures
        listed@ == argument_forbidden(),
{
    let listed = vec!['|', ';', '&', '$', '`'];
    assert(listed@ =~= argument_forbidden());
    listed
}

/// Finds the first character of `listed` that `text` holds.
pub fn find_listed(text: &Vec<char>, listed: &Vec<char>) -> (found: Option<char>)
    ensures
        found == first_listed(text@, listed@),
{
    let mut i: usize = 0;
    while i < listed.len()
        invariant
            i <= listed.len(),
            first_listed(text@, listed@) == first_listed_from(text@, listed@, i as int),
        decreases listed.len() - i,
    {
        if holds_char(text, listed[i]) {
            return Some(listed[i]);
        }
        i += 1;
    }
    None
}

/// Judges an extension that is already in lower case and without its dot;
/// `None` stands for a path without extension.
pub fn check_extension(lowered: Option<&str>) -> (result: Result<(), ValidationError>)
    ensures
        verdict_of(result) == extension_verdict(
            match lowered {
                Some(text) => Some(text@),
                None => None,
            },
        ),
{
    match lowered {
        Some(extension) => {
            if same_text(extension, "txt") || same_text(extension, "md") || same_text(
                extension,
                "doc",
            ) || same_text(extension, "docx") || same_text(extension, "rtf") {
                Ok(())
            } else {
                let mut dotted = String::from_str(".");
                proof {
                    reveal_strlit(".");
                    assert("."@ =~= seq!['.']);
                }
                dotted.append(extension);
                Err(ValidationError::UnsupportedType { extension: Some(dotted) })
            }
        },
        None => Err(ValidationError::UnsupportedType { extension: None }),
    }
}

/// Judges a file path before anything is done with it.
pub fn validate_file_path(file_path: &str) -> (result: Result<(), ValidationError>)
    ensures
        verdict_of(result) == path_verdict(file_path@),
        has_double_dot(file_path@) ==> result == Err::<(), ValidationError>(
            ValidationError::PathTraversal,
        ),
{
    let path = chars_of(file_path);
    let dots = vec!['.', '.'];
    assert(dots@ =~= seq!['.', '.']);
    if holds_text(&path, &dots) {
        return Err(ValidationError::PathTraversal);
    }
    let listed = forbidden_in_paths();
    match find_listed(&path, &listed) {
        Some(found) => Err(ValidationError::ForbiddenCharacter { found }),
        None => match path_extension(file_path) {
            Some(extension) => {
                let lowered = lowercase(extension.as_str());
                check_extension(Some(lowered.as_str()))
            },
            None => check_extension(None),
        },
    }
}

/// Judges one argument for the child.
pub fn sanitize_argument(argument: &str) -> (result: Result<(), ValidationError>)
    ensures
        verdict_of(result) == argument_verdict(argument@),
{
    let text = chars_of(argument);
    let listed = forbidden_in_arguments();
    match find_listed(&text, &listed) {
        Some(found) => Err(
            ValidationError::DangerousArgument { found, argument: String::from_str(argument) },
        ),
        None => Ok(()),
    }
}

/// Judges every argument for the child, in order, and stops at the first
/// that is refused.
pub fn sanitize_python_args(args: &[String]) -> (result: Result<(), ValidationError>)
    ensures
        verdict_of(result) == arguments_verdict(texts_of(args@)),
        result is Ok <==> arguments_clean(texts_of(args@)),
{
    let mut i: usize = 0;
    while i < args.len()
        invariant
            i <= args.len(),
            arguments_verdict(texts_of(args@)) == arguments_verdict_from(texts_of(args@), i as int),
            forall|j: int| 0 <= j < i ==> free_of(#[trigger] texts_of(args@)[j], argument_forbidden()),
        decreases args.len() - i,
    {
        let checked = sanitize_argument(args[i].as_str());
        assert(texts_of(args@)[i as int] == args@[i as int]@);
        proof {
            lemma_first_listed_none(texts_of(args@)[i as int], argument_forbidden());
        }
        match checked {
            Err(error) => {
                return Err(error);
            },
            Ok(()) => {},
        }
        i += 1;
    }
    Ok(())
}

/// `first_listed` finds nothing exactly where the text is free of the
/// listed characters; what it finds is listed and stands in the text.
pub proof fn lemma_first_listed_none(text: Seq<char>, listed: Seq<char>)
    ensures
        first_listed(text, listed) is None <==> free_of(text, listed),
        first_listed(text, listed) matches Some(found) ==> listed.contains(found) && text.contains(
            found,
        ),
{
    lemma_first_listed_from(text, listed, 0);
}

proof fn lemma_first_listed_from(text: Seq<char>, listed: Seq<char>, from: int)
    requires
        0 <= from <= listed.len(),
    ensures
        first_listed_from(text, listed, from) is None <==> (forall|i: int|
            from <= i < listed.len() ==> !text.contains(#[trigger] listed[i])),
        first_listed_from(text, listed, from) matches Some(found) ==> listed.contains(found)
            && text.contains(found),
    decreases listed.len() - from,
{
    if from < listed.len() {
        lemma_first_listed_from(text, listed, from + 1);
        if text.contains(listed[from]) {
            assert(listed.contains(listed[from]));
        }
    }
}

/// A list of arguments passes exactly where every argument is free of the
/// characters that no argument may hold.
pub proof fn lemma_arguments_verdict(arguments: Seq<Seq<char>>)
    ensures
        arguments_verdict(arguments) is Ok <==> arguments_clean(arguments),
{
    lemma_arguments_verdict_from(arguments, 0);
}

proof fn lemma_arguments_verdict_from(arguments: Seq<Seq<char>>, from: int)
    requires
        0 <= from <= arguments.len(),
    ensures
        arguments_verdict_from(arguments, from) is Ok <==> (forall|i: int|
            from <= i < arguments.len() ==> free_of(#[trigger] arguments[i], argument_forbidden())),
    decreases arguments.len() - from,
{
    if from < arguments.len() {
        lemma_arguments_verdict_from(arguments, from + 1);
        lemma_first_listed_none(arguments[from], argument_forbidden());
    }
}

/// A path that holds `..` is refused as a traversal, whatever else it
/// holds.
pub proof fn lemma_double_dot_is_refused(path: Seq<char>)
    requires
        has_double_dot(path),
    ensures
        path_verdict(path) == Err::<(), ValidationErrorModel>(ValidationErrorModel::PathTraversal),
{
}

/// A path without `..`, free of the characters that no path may hold, and
/// with an extension of the allow-list passes; a list of arguments free of
/// the characters that no argument may hold passes.
pub proof fn lemma_clean_input_passes(path: Seq<char>, arguments: Seq<Seq<char>>)
    requires
        !has_double_dot(path),
        free_of(path, path_forbidden()),
        lowered_extension(path) matches Some(extension) && allowed_extension(extension),
        arguments_clean(arguments),
    ensures
        path_verdict(path) is Ok,
        arguments_verdict(arguments) is Ok,
{
    lemma_first_listed_none(path, path_forbidden());
    lemma_arguments_verdict(arguments);
}

} // verus!
