//! File names and paths as text: which characters they may hold, and how
//! a name is made safe.

use crate::text::chars::{chars_of, copy_range, push_chars, string_of_range};
use vstd::prelude::*;

verus! {

/// What went wrong with a path.
#[derive(Debug)]
pub enum PathError {
    SystemDirNotFound(String),
    CreateDirFailed(String),
    PathNotAccessible(String),
    InvalidPathChars(String),
    IoError(String),
}

impl PathError {
    /// What an error's message starts with.
    pub open spec fn label(self) -> Seq<char> {
        match self {
            PathError::SystemDirNotFound(_) => "无法获取系统目录: "@,
            PathError::CreateDirFailed(_) => "无法创建目录: "@,
            PathError::PathNotAccessible(_) => "路径不可访问: "@,
            PathError::InvalidPathChars(_) => "路径包含无效字符: "@,
            PathError::IoError(_) => "IO 错误: "@,
        }
    }

    /// The detail an error carries.
    pub open spec fn detail(self) -> Seq<char> {
        match self {
            PathError::SystemDirNotFound(detail) => detail@,
            PathError::CreateDirFailed(detail) => detail@,
            PathError::PathNotAccessible(detail) => detail@,
            PathError::InvalidPathChars(detail) => detail@,
            PathError::IoError(detail) => detail@,
        }
    }

    /// Writes the message of the error: what failed, and the detail.
    pub fn to_string(&self) -> (text: String)
        ensures
            text@ == self.label() + self.detail(),
    {
        let (label, detail) = match self {
            PathError::SystemDirNotFound(detail) => ("无法获取系统目录: ", detail),
            PathError::CreateDirFailed(detail) => ("无法创建目录: ", detail),
            PathError::PathNotAccessible(detail) => ("路径不可访问: ", detail),
            PathError::InvalidPathChars(detail) => ("路径包含无效字符: ", detail),
            PathError::IoError(detail) => ("IO 错误: ", detail),
        };
        let mut text = String::from_str(label);
        text.append(detail.as_str());
        text
    }
}

/// The control characters: U+0000 to U+001F and U+007F to U+009F.
pub open spec fn is_control_spec(c: char) -> bool {
    let code = c as u32;
    code <= 0x1F || 0x7F <= code <= 0x9F
}

/// The characters that a file name cannot hold on Windows.
pub open spec fn is_reserved_spec(c: char) -> bool {
    ||| c == '<'
    ||| c == '>'
    ||| c == ':'
    ||| c == '"'
    ||| c == '/'
    ||| c == '\\'
    ||| c == '|'
    ||| c == '?'
    ||| c == '*'
}

/// A control character that a path may not hold: any but tab, line feed
/// and carriage return.
pub open spec fn is_forbidden_control(c: char) -> bool {
    is_control_spec(c) && c != '\t' && c != '\n' && c != '\r'
}

/// A name with every reserved character replaced by an underscore and
/// every control character left out.
pub open spec fn replaced_spec(name: Seq<char>) -> Seq<char>
    decreases name.len(),
{
    if name.len() == 0 {
        Seq::empty()
    } else {
        let before = replaced_spec(name.drop_last());
        let c = name.last();
        if is_reserved_spec(c) {
            before.push('_')
        } else if is_control_spec(c) {
            before
        } else {
            before.push(c)
        }
    }
}

/// A name without the spaces and dots at its end.
pub open spec fn without_trailing_dots(name: Seq<char>) -> Seq<char>
    decreases name.len(),
{
    if name.len() > 0 && (name.last() == ' ' || name.last() == '.') {
        without_trailing_dots(name.drop_last())
    } else {
        name
    }
}

/// The safe form of a file name: reserved characters replaced, control
/// characters left out, no space or dot at the end, and `unnamed` where
/// nothing is left.
pub open spec fn sanitize_filename_spec(name: Seq<char>) -> Seq<char> {
    let kept = without_trailing_dots(replaced_spec(name));
    if kept.len() == 0 {
        "unnamed"@
    } else {
        kept
    }
}

/// The index of the first control character that a path may not hold.
pub open spec fn first_forbidden(path: Seq<char>, index: int) -> bool {
    &&& 0 <= index < path.len()
    &&& is_forbidden_control(path[index])
    &&& forall|k: int| 0 <= k < index ==> !is_forbidden_control(#[trigger] path[k])
}

/// No character of the path is a control character that it may not hold.
pub open spec fn has_no_forbidden_control(path: Seq<char>) -> bool {
    forall|k: int| 0 <= k < path.len() ==> !is_forbidden_control(#[trigger] path[k])
}

/// How `char`'s `Debug` implementation writes a character.
pub uninterp spec fn char_debug_spec(c: char) -> Seq<char>;

/// The message for a control character in a path.
pub open spec fn control_message(c: char) -> Seq<char> {
    "路径包含控制字符: "@ + char_debug_spec(c)
}

/// The message for a reserved character in a path.
pub open spec fn reserved_message(c: char) -> Seq<char> {
    "路径包含 Windows 保留字符: "@.push(c)
}

/// `char`'s `Debug` implementation: the character in single quotes,
/// escaped where it cannot be printed. The result depends on the
/// character alone.
#[verifier::external_body]
fn char_debug(c: char) -> (text: String)
    ensures
        text@ == char_debug_spec(c),
{
    format!("{:?}", c)
}

pub fn is_control(c: char) -> (control: bool)
    ensures
        control == is_control_spec(c),
{
    let code: u32 = c as u32;
    code <= 0x1F || (0x7F <= code && code <= 0x9F)
}

pub fn is_reserved(c: char) -> (reserved: bool)
    ensures
        reserved == is_reserved_spec(c),
{
    c == '<' || c == '>' || c == ':' || c == '"' || c == '/' || c == '\\' || c == '|' || c == '?'
        || c == '*'
}

/// The part of a path after its drive letter: without its first two
/// characters where the second is a colon.
pub open spec fn without_drive(path: Seq<char>) -> Seq<char> {
    if path.len() >= 2 && path[1] == ':' {
        path.skip(2)
    } else {
        path
    }
}

/// The characters that a path cannot hold on Windows, a colon after the
/// drive letter apart, in the order in which they are looked for.
pub open spec fn windows_reserved() -> Seq<char> {
    seq!['<', '>', ':', '"', '|', '?', '*']
}

/// `found` is the first of the reserved characters that occurs in the
/// path.
pub open spec fn first_reserved(path: Seq<char>, found: int) -> bool {
    &&& 0 <= found < windows_reserved().len()
    &&& path.contains(windows_reserved()[found])
    &&& forall|k: int| 0 <= k < found ==> !path.contains(#[trigger] windows_reserved()[k])
}

/// Works on file names and paths as text.
pub struct PathResolver;

impl PathResolver {
    /// Checks a path for control characters. Tab, line feed and carriage
    /// return are let through; the first other control character is
    /// reported.
    pub fn validate_path_chars(path: &str) -> (outcome: Result<(), PathError>)
        ensures
            outcome is Ok <==> has_no_forbidden_control(path@),
            outcome matches Err(error) ==> exists|index: int|
                first_forbidden(path@, index) && error is InvalidPathChars && error.detail()
                    == control_message(path@[index]),
    {
        let text = chars_of(path);
        let mut i: usize = 0;
        while i < text.len()
            invariant
                i <= text.len(),
                text@ == path@,
                forall|k: int| 0 <= k < i ==> !is_forbidden_control(#[trigger] text@[k]),
            decreases text.len() - i,
        {
            let c = text[i];
            if is_control(c) && c != '\t' && c != '\n' && c != '\r' {
                let mut message = String::from_str("路径包含控制字符: ");
                message.append(char_debug(c).as_str());
                assert(first_forbidden(path@, i as int));
                return Err(PathError::InvalidPathChars(message));
            }
            i += 1;
        }
        Ok(())
    }

    /// Checks a path as Windows requires: for control characters as
    /// `validate_path_chars` does, then, after the drive letter, for the
    /// characters that Windows reserves. The reserved character that
    /// comes first in the fixed order is reported.
    #[verifier::loop_isolation(false)]
    pub fn validate_windows_path_chars(path: &str) -> (outcome: Result<(), PathError>)
        ensures
            outcome is Ok <==> has_no_forbidden_control(path@) && forall|k: int|
                0 <= k < windows_reserved().len() ==> !without_drive(path@).contains(
                    #[trigger] windows_reserved()[k],
                ),
            outcome matches Err(error) ==> error is InvalidPathChars,
            outcome matches Err(error) ==> (has_no_forbidden_control(path@) ==> exists|found: int|
                first_reserved(without_drive(path@), found) && error.detail() == reserved_message(
                    windows_reserved()[found],
                )),
    {
        match Self::validate_path_chars(path) {
            Err(error) => {
                return Err(error);
            },
            Ok(_) => {},
        }
        let text = chars_of(path);
        let start: usize = if text.len() >= 2 && text[1] == ':' {
            2
        } else {
            0
        };
        let rest = copy_range(&text, start, text.len());
        assert(rest@ == without_drive(path@));
        let reserved: [char; 7] = ['<', '>', ':', '"', '|', '?', '*'];
        assert(reserved@ =~= windows_reserved());
        let mut r: usize = 0;
        while r < 7
            invariant
                r <= 7,
                reserved@ == windows_reserved(),
                rest@ == without_drive(path@),
                has_no_forbidden_control(path@),
                forall|k: int| 0 <= k < r ==> !rest@.contains(#[trigger] windows_reserved()[k]),
            decreases 7 - r,
        {
            let wanted = reserved[r];
            assert(wanted == windows_reserved()[r as int]);
            let mut i: usize = 0;
            while i < rest.len()
                invariant
                    i <= rest.len(),
                    forall|k: int| 0 <= k < i ==> rest@[k] != wanted,
                decreases rest.len() - i,
            {
                if rest[i] == wanted {
                    let mut message = String::from_str("路径包含 Windows 保留字符: ");
                    let mut one: Vec<char> = Vec::new();
                    one.push(wanted);
                    push_chars(&mut message, &one);
                    assert(message@ =~= reserved_message(wanted));
                    assert(rest@.contains(wanted));
                    assert(first_reserved(rest@, r as int));
                    return Err(PathError::InvalidPathChars(message));
                }
                i += 1;
            }
            assert(!rest@.contains(wanted));
            r += 1;
        }
        Ok(())
    }

    /// Makes a file name safe: every reserved character becomes an
    /// underscore, control characters are left out, spaces and dots at
    /// the end are removed, and a name of which nothing is left becomes
    /// `unnamed`.
    pub fn sanitize_filename(name: &str) -> (safe: String)
        ensures
            safe@ == sanitize_filename_spec(name@),
            safe@.len() > 0,
    {
        let text = chars_of(name);
        let mut kept: Vec<char> = Vec::new();
        let mut i: usize = 0;
        assert(text@.take(0) == Seq::<char>::empty());
        while i < text.len()
            invariant
                i <= text.len(),
                kept@ == replaced_spec(text@.take(i as int)),
            decreases text.len() - i,
        {
            let c = text[i];
            proof {
                let next = text@.take(i + 1);
                assert(next.drop_last() == text@.take(i as int));
                assert(next.last() == c);
            }
            if is_reserved(c) {
                kept.push('_');
            } else if is_control(c) {
            } else {
                kept.push(c);
            }
            i += 1;
        }
        assert(text@.take(text.len() as int) == text@);
        let mut end: usize = kept.len();
        assert(kept@.subrange(0, end as int) == kept@);
        while end > 0 && (kept[end - 1] == ' ' || kept[end - 1] == '.')
            invariant
                end <= kept.len(),
                without_trailing_dots(kept@) == without_trailing_dots(kept@.subrange(0, end as int)),
            decreases end,
        {
            proof {
                let current = kept@.subrange(0, end as int);
                assert(current.drop_last() == kept@.subrange(0, end - 1));
            }
            end -= 1;
        }
        if end == 0 {
            proof {
                reveal_strlit("unnamed");
            }
            String::from_str("unnamed")
        } else {
            string_of_range(&kept, 0, end)
        }
    }
}

/// A safe name holds no reserved and no control character, and does not
/// end in a space or a dot.
pub proof fn law_sanitized_name_is_safe(name: Seq<char>)
    ensures
        forall|i: int|
            0 <= i < sanitize_filename_spec(name).len() ==> {
                let c = #[trigger] sanitize_filename_spec(name)[i];
                !is_reserved_spec(c) && !is_control_spec(c)
            },
        sanitize_filename_spec(name).len() > 0,
        sanitize_filename_spec(name).last() != ' ',
        sanitize_filename_spec(name).last() != '.',
{
    reveal_strlit("unnamed");
    lemma_replaced_is_clean(name);
    lemma_trailing_dots(replaced_spec(name));
    let kept = without_trailing_dots(replaced_spec(name));
    if kept.len() > 0 {
        assert forall|i: int| 0 <= i < kept.len() implies !is_reserved_spec(#[trigger] kept[i])
            && !is_control_spec(kept[i]) by {
            assert(kept[i] == replaced_spec(name)[i]);
        }
    }
}

proof fn lemma_replaced_is_clean(name: Seq<char>)
    ensures
        forall|i: int|
            0 <= i < replaced_spec(name).len() ==> !is_reserved_spec(
                #[trigger] replaced_spec(name)[i],
            ) && !is_control_spec(replaced_spec(name)[i]),
    decreases name.len(),
{
    if name.len() > 0 {
        lemma_replaced_is_clean(name.drop_last());
        let before = replaced_spec(name.drop_last());
        let after = replaced_spec(name);
        assert forall|i: int| 0 <= i < after.len() implies !is_reserved_spec(#[trigger] after[i])
            && !is_control_spec(after[i]) by {
            if i < before.len() {
                assert(after[i] == before[i]);
            }
        }
    }
}

proof fn lemma_trailing_dots(name: Seq<char>)
    ensures
        without_trailing_dots(name).is_prefix_of(name),
        without_trailing_dots(name).len() > 0 ==> without_trailing_dots(name).last() != ' '
            && without_trailing_dots(name).last() != '.',
    decreases name.len(),
{
    if name.len() > 0 && (name.last() == ' ' || name.last() == '.') {
        lemma_trailing_dots(name.drop_last());
    }
}

} // verus!
