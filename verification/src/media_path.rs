//! What counts as a wallpaper file, and paths as callers hand them in.

use crate::engine::{set_last_error, EngineState};
use crate::text::{optional_text, parse_unsigned, unsigned_value};
use vstd::prelude::*;
use vstd::string::*;

verus! {

/// A path argument as it comes over the C interface.
pub enum PathArgument {
    Null,
    NotUtf8,
    Text(String),
}

/// The extension of `path`, under the path rules of a platform whose main
/// separator is `separator`.
pub uninterp spec fn path_extension(path: Seq<char>, separator: char) -> Option<Seq<char>>;

/// `std::path::Path::extension`, with the main separator of the platform by
/// whose path rules it went. What the extension of a given path is follows the
/// path syntax of the platform and is left to the name; stated is what the
/// documentation says of every platform: a path without a dot has none, and
/// an extension, being what follows the final dot, holds no dot itself.
#[verifier::external_body]
fn extension_of(path: &str) -> (found: (Option<String>, char))
    ensures
        optional_text(found.0) == path_extension(path@, found.1),
        !path@.contains('.') ==> found.0 is None,
        found.0 matches Some(extension) ==> !extension@.contains('.'),
{
    let extension = std::path::Path::new(path).extension();
    (extension.and_then(|value| value.to_str()).map(str::to_owned), std::path::MAIN_SEPARATOR)
}

/// The code of `c`, of its lower-case letter where `c` is an ASCII letter.
pub open spec fn folded(c: char) -> int {
    if 'A' <= c <= 'Z' {
        c as int + 32
    } else {
        c as int
    }
}

/// Whether two texts differ at most in the case of ASCII letters.
pub open spec fn same_ignoring_case(left: Seq<char>, right: Seq<char>) -> bool {
    &&& left.len() == right.len()
    &&& forall|i: int| 0 <= i < left.len() ==> folded(#[trigger] left[i]) == folded(right[i])
}

fn fold(c: char) -> (code: u32)
    ensures
        code == folded(c),
{
    if c >= 'A' && c <= 'Z' {
        c as u32 + 32
    } else {
        c as u32
    }
}

/// Whether two texts differ at most in the case of ASCII letters.
pub fn equal_ignoring_case(left: &str, right: &str) -> (equal: bool)
    ensures
        equal == same_ignoring_case(left@, right@),
{
    let len: usize = left.unicode_len();
    if len != right.unicode_len() {
        return false;
    }
    let mut i: usize = 0;
    while i < len
        invariant
            i <= len,
            len == left@.len(),
            len == right@.len(),
            forall|k: int| 0 <= k < i ==> folded(#[trigger] left@[k]) == folded(right@[k]),
        decreases len - i,
    {
        if fold(left.get_char(i)) != fold(right.get_char(i)) {
            assert(folded(left@[i as int]) != folded(right@[i as int]));
            return false;
        }
        i = i + 1;
    }
    true
}

/// Whether an extension is that of an MP4 file.
pub open spec fn mp4_extension(extension: Option<Seq<char>>) -> bool {
    extension matches Some(extension) && same_ignoring_case(extension, "mp4"@)
}

/// Whether files of an extension can be wallpapers: MP4, GIF and WEBP can.
pub open spec fn supported_extension(extension: Option<Seq<char>>) -> bool {
    extension matches Some(extension) && (same_ignoring_case(extension, "mp4"@)
        || same_ignoring_case(extension, "gif"@) || same_ignoring_case(extension, "webp"@))
}

/// Whether an extension is that of an MP4 file.
pub fn is_mp4_extension(extension: &Option<String>) -> (is_mp4: bool)
    ensures
        is_mp4 == mp4_extension(optional_text(*extension)),
{
    match extension {
        Some(extension) => equal_ignoring_case(extension.as_str(), "mp4"),
        None => false,
    }
}

/// Whether files of an extension can be wallpapers.
pub fn is_supported_extension(extension: &Option<String>) -> (supported: bool)
    ensures
        supported == supported_extension(optional_text(*extension)),
{
    match extension {
        Some(extension) => equal_ignoring_case(extension.as_str(), "mp4") || equal_ignoring_case(
            extension.as_str(),
            "gif",
        ) || equal_ignoring_case(extension.as_str(), "webp"),
        None => false,
    }
}

/// Whether `path` names an MP4 file, by the path rules of this platform.
pub fn is_mp4(path: &str) -> (is_mp4: bool)
    ensures
        exists|separator: char|
            is_mp4 == mp4_extension(#[trigger] path_extension(path@, separator)),
        !path@.contains('.') ==> !is_mp4,
{
    let (extension, separator): (Option<String>, char) = extension_of(path);
    assert(optional_text(extension) == path_extension(path@, separator));
    is_mp4_extension(&extension)
}

/// Whether `path` names a file that can be a wallpaper, by the path rules of
/// this platform.
pub fn has_supported_extension(path: &str) -> (supported: bool)
    ensures
        exists|separator: char|
            supported == supported_extension(#[trigger] path_extension(path@, separator)),
        !path@.contains('.') ==> !supported,
{
    let (extension, separator): (Option<String>, char) = extension_of(path);
    assert(optional_text(extension) == path_extension(path@, separator));
    is_supported_extension(&extension)
}

/// Accepts or refuses a wallpaper path, by whether its extension is supported
/// and whether it names a file. Such a file is also given by its full path, which
/// is what is handed on to be started: a relative path is as good as an absolute
/// one.
pub fn accept_wallpaper<P, R, A, M>(
    state: &mut EngineState<P, R, A, M>,
    argument: PathArgument,
    supported: bool,
    resolved: Option<String>,
) -> (accepted: Option<String>)
    ensures
        match argument {
            PathArgument::Null => accepted is None && final(state).last_error@
                == "Wallpaper path is null."@,
            PathArgument::NotUtf8 => accepted is None && final(state).last_error@
                == "Wallpaper path is not valid UTF-8."@,
            PathArgument::Text(_) => {
                &&& wallpaper_verdict(supported, resolved, accepted, final(state).last_error@)
                &&& supported && resolved is Some ==> *final(state) == *old(state)
            },
        },
        *final(state) == (EngineState { last_error: final(state).last_error, ..*old(state) }),
        old(state).wf() ==> final(state).wf(),
{
    match argument {
        PathArgument::Null => {
            set_last_error(state, "Wallpaper path is null.");
            None
        },
        PathArgument::NotUtf8 => {
            set_last_error(state, "Wallpaper path is not valid UTF-8.");
            None
        },
        PathArgument::Text(_) => {
            if supported && resolved.is_some() {
                resolved
            } else {
                set_last_error(state, "File does not exist or has an unsupported extension.");
                None
            }
        },
    }
}

/// What `set_wallpaper` makes of a path whose extension is supported or not, and
/// which names the file of a full path or none.
pub open spec fn wallpaper_verdict(
    supported: bool,
    resolved: Option<String>,
    accepted: Option<String>,
    error: Seq<char>,
) -> bool {
    if supported && resolved is Some {
        accepted == resolved
    } else {
        accepted is None && error == "File does not exist or has an unsupported extension."@
    }
}

/// Accepts or refuses a wallpaper path, by its extension under the path rules
/// of this platform and by whether it names a file. Such a file is also given by
/// its full path, which is what is handed on to be started.
pub fn set_wallpaper<P, R, A, M>(
    state: &mut EngineState<P, R, A, M>,
    argument: PathArgument,
    resolved: Option<String>,
) -> (accepted: Option<String>)
    ensures
        match argument {
            PathArgument::Null => accepted is None && final(state).last_error@
                == "Wallpaper path is null."@,
            PathArgument::NotUtf8 => accepted is None && final(state).last_error@
                == "Wallpaper path is not valid UTF-8."@,
            PathArgument::Text(path) => {
                &&& exists|separator: char|
                    wallpaper_verdict(
                        supported_extension(#[trigger] path_extension(path@, separator)),
                        resolved,
                        accepted,
                        final(state).last_error@,
                    )
                &&& !path@.contains('.') ==> accepted is None
            },
        },
        accepted is Some ==> *final(state) == *old(state),
        *final(state) == (EngineState { last_error: final(state).last_error, ..*old(state) }),
        old(state).wf() ==> final(state).wf(),
{
    let supported: bool = match &argument {
        PathArgument::Text(path) => has_supported_extension(path.as_str()),
        _ => false,
    };
    accept_wallpaper(state, argument, supported, resolved)
}

/// Takes the path of an MP4 diagnostic, or records why there is none.
pub fn mp4_path<P, R, A, M>(
    state: &mut EngineState<P, R, A, M>,
    argument: PathArgument,
) -> (accepted: Option<String>)
    ensures
        match argument {
            PathArgument::Null => accepted is None && final(state).last_error@
                == "MP4 path is null."@,
            PathArgument::NotUtf8 => accepted is None && final(state).last_error@
                == "MP4 path is not valid UTF-8."@,
            PathArgument::Text(path) => accepted == Some(path) && *final(state) == *old(state),
        },
        *final(state) == (EngineState { last_error: final(state).last_error, ..*old(state) }),
        old(state).wf() ==> final(state).wf(),
{
    match argument {
        PathArgument::Null => {
            set_last_error(state, "MP4 path is null.");
            None
        },
        PathArgument::NotUtf8 => {
            set_last_error(state, "MP4 path is not valid UTF-8.");
            None
        },
        PathArgument::Text(path) => Some(path),
    }
}

/// The longest delay of a startup, in milliseconds.
pub const MAX_STARTUP_DELAY_MS: u64 = 5_000;

/// The delay of a startup, in milliseconds, that a diagnostic setting asks
/// for: a positive number, of which no more than five seconds count.
pub fn startup_delay_ms(setting: &Option<String>) -> (delay: Option<u64>)
    ensures
        delay == (match setting {
            Some(setting) => match unsigned_value(setting@) {
                Some(value) => if value == 0 {
                    None
                } else if value > MAX_STARTUP_DELAY_MS {
                    Some(MAX_STARTUP_DELAY_MS)
                } else {
                    Some(value)
                },
                None => None,
            },
            None => None,
        }),
{
    match setting {
        Some(setting) => match parse_unsigned(setting.as_str()) {
            Some(value) => {
                if value == 0 {
                    None
                } else if value > MAX_STARTUP_DELAY_MS {
                    Some(MAX_STARTUP_DELAY_MS)
                } else {
                    Some(value)
                }
            },
            None => None,
        },
        None => None,
    }
}

/// The case of letters does not matter to what is supported.
pub proof fn support_ignores_case(left: Seq<char>, right: Seq<char>)
    requires
        same_ignoring_case(left, right),
    ensures
        supported_extension(Some(left)) == supported_extension(Some(right)),
        mp4_extension(Some(left)) == mp4_extension(Some(right)),
{
    support_transfers(left, right);
    assert(same_ignoring_case(right, left));
    support_transfers(right, left);
}

proof fn support_transfers(left: Seq<char>, right: Seq<char>)
    requires
        same_ignoring_case(left, right),
    ensures
        forall|name: Seq<char>| #[trigger]
            same_ignoring_case(left, name) ==> same_ignoring_case(right, name),
{
    assert forall|name: Seq<char>| #[trigger] same_ignoring_case(left, name) implies
        same_ignoring_case(right, name) by {
        assert forall|i: int| 0 <= i < right.len() implies folded(#[trigger] right[i]) == folded(
            name[i],
        ) by {
            assert(folded(left[i]) == folded(right[i]));
            assert(folded(left[i]) == folded(name[i]));
        }
    }
}

/// Whether a text spells a name, in small letters, capitals or both.
pub open spec fn spells(text: Seq<char>, name: Seq<char>) -> bool {
    &&& text.len() == name.len()
    &&& forall|i: int|
        0 <= i < name.len() ==> #[trigger] text[i] == name[i] || ('A' <= text[i] <= 'Z' && text[i]
            as int + 32 == name[i] as int)
}

proof fn lemma_spells(text: Seq<char>, name: Seq<char>)
    requires
        forall|i: int|
            0 <= i < name.len() ==> 'a' <= #[trigger] name[i] <= 'z' || '0' <= name[i] <= '9',
    ensures
        same_ignoring_case(text, name) <==> spells(text, name),
{
    if spells(text, name) {
        assert forall|i: int| 0 <= i < text.len() implies folded(#[trigger] text[i]) == folded(
            name[i],
        ) by {
            assert(text[i] == name[i] || ('A' <= text[i] <= 'Z' && text[i] as int + 32 == name[i]
                as int));
        }
    }
    if same_ignoring_case(text, name) {
        assert forall|i: int| 0 <= i < name.len() implies #[trigger] text[i] == name[i] || ('A'
            <= text[i] <= 'Z' && text[i] as int + 32 == name[i] as int) by {
            assert(folded(text[i]) == folded(name[i]));
        }
    }
}

/// Files are wallpapers exactly where their extension spells mp4, gif or webp,
/// in small letters, capitals or both; and MP4 files exactly where it spells
/// mp4. A file without an extension is neither.
pub proof fn three_kinds_of_files_are_supported(extension: Option<Seq<char>>)
    ensures
        supported_extension(extension) <==> (extension matches Some(text) && (spells(
            text,
            seq!['m', 'p', '4'],
        ) || spells(text, seq!['g', 'i', 'f']) || spells(text, seq!['w', 'e', 'b', 'p']))),
        mp4_extension(extension) <==> (extension matches Some(text) && spells(
            text,
            seq!['m', 'p', '4'],
        )),
{
    reveal_strlit("mp4");
    reveal_strlit("gif");
    reveal_strlit("webp");
    assert("mp4"@ =~= seq!['m', 'p', '4']);
    assert("gif"@ =~= seq!['g', 'i', 'f']);
    assert("webp"@ =~= seq!['w', 'e', 'b', 'p']);
    if let Some(text) = extension {
        lemma_spells(text, seq!['m', 'p', '4']);
        lemma_spells(text, seq!['g', 'i', 'f']);
        lemma_spells(text, seq!['w', 'e', 'b', 'p']);
    }
}

/// A path is accepted exactly where its extension is supported and it names a
/// file, and what is handed on is the full path of that file.
pub proof fn an_accepted_path_is_the_full_one(
    supported: bool,
    resolved: Option<String>,
    accepted: Option<String>,
    error: Seq<char>,
)
    requires
        wallpaper_verdict(supported, resolved, accepted, error),
    ensures
        accepted is Some <==> supported && resolved is Some,
        accepted is Some ==> accepted == resolved,
        accepted is None ==> error == "File does not exist or has an unsupported extension."@,
{
}

} // verus!
