//! File previews: which kind of preview a file gets from its extension, the
//! text shown for a text file, and the size of the preview window.

use vstd::prelude::*;
use crate::text::{
    chars_of, contains_seq, has_infix, lower, push_str, same_text, string_from_range, string_of, to_lower,
};

verus! {

/// Text files up to this many bytes are shown whole.
pub const MAX_TEXT_PREVIEW_SIZE: u64 = 1048576;

/// How many characters of a larger text file are shown.
pub const TRUNCATED_PREVIEW_CHARS: usize = 50000;

/// The kinds of preview.
#[derive(Debug, Clone, Copy, PartialEq, Eq, Structural)]
pub enum PreviewKind {
    Image,
    Text,
    Unsupported,
}

/// File preview content
#[derive(Debug)]
pub enum PreviewContent {
    /// An image, by path
    Image(String),
    /// The text to show
    Text(String),
    /// No preview; the extension
    Unsupported(String),
}

/// The image extensions (lower-case).
pub open spec fn is_image_ext(e: Seq<char>) -> bool {
    e == "png"@ || e == "jpg"@ || e == "jpeg"@ || e == "gif"@ || e == "bmp"@ || e == "ico"@ || e == "webp"@
        || e == "tiff"@ || e == "tif"@
}

/// The text extensions (lower-case).
pub open spec fn text_exts() -> Seq<Seq<char>> {
    seq![
        "txt"@, "md"@, "rs"@, "py"@, "js"@, "ts"@, "jsx"@, "tsx"@, "json"@, "xml"@, "html"@, "htm"@,
        "css"@, "scss"@, "less"@, "yaml"@, "yml"@, "toml"@, "ini"@, "cfg"@, "conf"@, "log"@,
        "sh"@, "bash"@, "zsh"@, "ps1"@, "bat"@, "cmd"@, "c"@, "cpp"@, "h"@, "hpp"@, "java"@,
        "go"@, "rb"@, "php"@, "sql"@, "gitignore"@, "dockerignore"@, "env"@, "vue"@, "svelte"@,
    ]
}

/// The kind of preview for a lower-cased extension.
pub open spec fn kind_of_ext(e: Seq<char>) -> PreviewKind {
    if is_image_ext(e) {
        PreviewKind::Image
    } else if text_exts().contains(e) {
        PreviewKind::Text
    } else {
        PreviewKind::Unsupported
    }
}

/// The lower-cased extension of a file, empty when it has none.
pub open spec fn ext_of(ext: Option<Seq<char>>) -> Seq<char> {
    match ext {
        Some(e) => lower(e),
        None => Seq::empty(),
    }
}

/// The lower-cased extension (empty when there is none) and the kind of
/// preview it gets.
pub fn classify_extension(ext: Option<&str>) -> (r: (String, PreviewKind))
    ensures
        r.0@ == ext_of(match ext {
            Some(e) => Some(e@),
            None => None,
        }),
        r.1 == kind_of_ext(r.0@),
{
    let e = match ext {
        Some(x) => to_lower(x),
        None => String::new(),
    };
    let s = e.as_str();
    let image = same_text(s, "png") || same_text(s, "jpg") || same_text(s, "jpeg") || same_text(s, "gif")
        || same_text(s, "bmp") || same_text(s, "ico") || same_text(s, "webp") || same_text(s, "tiff")
        || same_text(s, "tif");
    if image {
        return (e, PreviewKind::Image);
    }
    let texts: [&str; 42] = [
        "txt", "md", "rs", "py", "js", "ts", "jsx", "tsx", "json", "xml", "html", "htm",
        "css", "scss", "less", "yaml", "yml", "toml", "ini", "cfg", "conf", "log",
        "sh", "bash", "zsh", "ps1", "bat", "cmd", "c", "cpp", "h", "hpp", "java",
        "go", "rb", "php", "sql", "gitignore", "dockerignore", "env", "vue", "svelte",
    ];
    assert(texts@.map_values(|t: &str| t@) == text_exts());
    let mut i: usize = 0;
    while i < 42
        invariant
            i <= 42,
            texts@.map_values(|t: &str| t@) == text_exts(),
            s@ == e@,
            e@ == ext_of(match ext {
                Some(x) => Some(x@),
                None => None,
            }),
            !is_image_ext(e@),
            forall|j: int| 0 <= j < i ==> text_exts()[j] != e@,
        decreases 42 - i,
    {
        assert(texts@.map_values(|t: &str| t@)[i as int] == texts@[i as int]@);
        if same_text(texts[i], s) {
            assert(text_exts()[i as int] == e@);
            return (e, PreviewKind::Text);
        }
        i += 1;
    }
    assert(!text_exts().contains(e@));
    (e, PreviewKind::Unsupported)
}

/// The text shown for a text file of `file_len` bytes whose content was
/// read as `content` (`None`: unreadable): all of it when small enough,
/// else its first characters and a note.
pub open spec fn text_preview_of(content: Option<Seq<char>>, file_len: nat) -> Seq<char> {
    match content {
        None => "[Unable to read file content]"@,
        Some(c) => if file_len <= MAX_TEXT_PREVIEW_SIZE {
            c
        } else {
            (if c.len() <= TRUNCATED_PREVIEW_CHARS {
                c
            } else {
                c.take(TRUNCATED_PREVIEW_CHARS as int)
            }) + "\n\n[File truncated - too large to preview]"@
        },
    }
}

/// The text shown for a text file (see `text_preview_of`).
pub fn text_preview(content: Option<String>, file_len: u64) -> (r: String)
    ensures
        r@ == text_preview_of(
            match content {
                Some(c) => Some(c@),
                None => None,
            },
            file_len as nat,
        ),
{
    match content {
        None => string_of("[Unable to read file content]"),
        Some(c) => {
            if file_len <= MAX_TEXT_PREVIEW_SIZE {
                c
            } else {
                let v = chars_of(c.as_str());
                let n = if v.len() <= TRUNCATED_PREVIEW_CHARS {
                    v.len()
                } else {
                    TRUNCATED_PREVIEW_CHARS
                };
                let mut r = string_from_range(&v, 0, n);
                assert(v@.subrange(0, n as int) == (if v@.len() <= TRUNCATED_PREVIEW_CHARS {
                    v@
                } else {
                    v@.take(TRUNCATED_PREVIEW_CHARS as int)
                }));
                push_str(&mut r, "\n\n[File truncated - too large to preview]");
                r
            }
        },
    }
}

/// The preview window's size for a kind of content.
pub fn window_size(kind: PreviewKind) -> (r: (i32, i32))
    ensures
        r == (match kind {
            PreviewKind::Image => (800i32, 600i32),
            PreviewKind::Text => (700i32, 500i32),
            PreviewKind::Unsupported => (400i32, 200i32),
        }),
{
    match kind {
        PreviewKind::Image => (800, 600),
        PreviewKind::Text => (700, 500),
        PreviewKind::Unsupported => (400, 200),
    }
}

impl PreviewContent {
    /// The kind of this content.
    pub fn kind(&self) -> (k: PreviewKind)
        ensures
            k == (match self {
                PreviewContent::Image(_) => PreviewKind::Image,
                PreviewContent::Text(_) => PreviewKind::Text,
                PreviewContent::Unsupported(_) => PreviewKind::Unsupported,
            }),
    {
        match self {
            PreviewContent::Image(_) => PreviewKind::Image,
            PreviewContent::Text(_) => PreviewKind::Text,
            PreviewContent::Unsupported(_) => PreviewKind::Unsupported,
        }
    }
}

/// Virtual-key code of the space bar.
pub const VK_SPACE: u32 = 0x20;

/// Virtual-key code of Escape.
pub const VK_ESCAPE: u32 = 0x1B;

/// What a key press seen by the keyboard hook does to the preview.
#[derive(Debug)]
pub enum HookAction {
    /// Nothing: the key goes on to the next hook
    PassOn,
    /// Close the open preview and swallow the key
    Close,
    /// Open a preview of this file (the key is swallowed when it opens)
    Show(String),
    /// Close the open preview and open one of this file instead (the key
    /// is swallowed when it opens)
    Replace(String),
}

/// `a` is what the hook does for a key press: `hooked` says whether the
/// event is a key going down that the hook may act on, `vk` is the key,
/// `focused` whether the file explorer or the desktop has the focus,
/// `selected` the selected file there, `open` whether a preview is open and
/// `shown` the file it shows (none when that cannot be read). The space bar
/// over a selected file closes a preview of that same file, replaces one of
/// another, or opens one; Escape closes an open preview.
pub open spec fn hook_action_is(
    a: HookAction,
    hooked: bool,
    vk: u32,
    focused: bool,
    selected: Option<Seq<char>>,
    open: bool,
    shown: Option<Seq<char>>,
) -> bool {
    if hooked && vk == VK_SPACE && focused && selected is Some {
        let file = selected->0;
        if open {
            if shown == Some(file) {
                a is Close
            } else {
                a matches HookAction::Replace(f) && f@ == file
            }
        } else {
            a matches HookAction::Show(f) && f@ == file
        }
    } else if hooked && vk == VK_ESCAPE && open {
        a is Close
    } else {
        a is PassOn
    }
}

/// What the keyboard hook does for a key press (see `hook_action_is`).
pub fn hook_action(
    hooked: bool,
    vk: u32,
    focused: bool,
    selected: Option<String>,
    open: bool,
    shown: Option<String>,
) -> (a: HookAction)
    ensures
        hook_action_is(
            a,
            hooked,
            vk,
            focused,
            match selected {
                Some(s) => Some(s@),
                None => None,
            },
            open,
            match shown {
                Some(s) => Some(s@),
                None => None,
            },
        ),
{
    if hooked && vk == VK_SPACE && focused {
        if let Some(file) = selected {
            if open {
                let same = match &shown {
                    Some(f) => same_text(f.as_str(), file.as_str()),
                    None => false,
                };
                if same {
                    return HookAction::Close;
                } else {
                    return HookAction::Replace(file);
                }
            } else {
                return HookAction::Show(file);
            }
        }
    }
    if hooked && vk == VK_ESCAPE && open {
        HookAction::Close
    } else {
        HookAction::PassOn
    }
}

/// A window class of the file explorer or the desktop: the name holds one
/// of the explorer window, the older explorer window, the desktop, the
/// desktop worker or the shell view class names.
pub open spec fn explorer_class(class: Seq<char>) -> bool {
    ||| has_infix(class, "CabinetWClass"@)
    ||| has_infix(class, "ExploreWClass"@)
    ||| has_infix(class, "Progman"@)
    ||| has_infix(class, "WorkerW"@)
    ||| has_infix(class, "SHELLDLL_DefView"@)
}

/// Whether a window of class `class` belongs to the file explorer or the
/// desktop (see `explorer_class`).
pub fn is_explorer_class(class: &str) -> (b: bool)
    ensures
        b == explorer_class(class@),
{
    let c = chars_of(class);
    let a = chars_of("CabinetWClass");
    let b = chars_of("ExploreWClass");
    let p = chars_of("Progman");
    let w = chars_of("WorkerW");
    let v = chars_of("SHELLDLL_DefView");
    contains_seq(&c, &a) || contains_seq(&c, &b) || contains_seq(&c, &p) || contains_seq(&c, &w) || contains_seq(
        &c,
        &v,
    )
}

} // verus!
