//! Keyboard layout module: the input language of the foreground window.

use vstd::prelude::*;
use crate::config::ModulesConfig;
use crate::modules::Module;
use crate::text::{push_str, string_of};

verus! {

/// Primary language id of English.
pub const LANG_ENGLISH: u16 = 0x09;
/// Primary language id of Spanish.
pub const LANG_SPANISH: u16 = 0x0A;
/// Primary language id of French.
pub const LANG_FRENCH: u16 = 0x0C;
/// Primary language id of German.
pub const LANG_GERMAN: u16 = 0x07;
/// Primary language id of Italian.
pub const LANG_ITALIAN: u16 = 0x10;
/// Primary language id of Portuguese.
pub const LANG_PORTUGUESE: u16 = 0x16;
/// Primary language id of Russian.
pub const LANG_RUSSIAN: u16 = 0x19;
/// Primary language id of Chinese.
pub const LANG_CHINESE: u16 = 0x04;
/// Primary language id of Japanese.
pub const LANG_JAPANESE: u16 = 0x11;
/// Primary language id of Korean.
pub const LANG_KOREAN: u16 = 0x12;
/// Primary language id of Arabic.
pub const LANG_ARABIC: u16 = 0x01;
/// Primary language id of Hebrew.
pub const LANG_HEBREW: u16 = 0x0D;
/// Primary language id of Polish.
pub const LANG_POLISH: u16 = 0x15;
/// Primary language id of Dutch.
pub const LANG_DUTCH: u16 = 0x13;
/// Primary language id of Turkish.
pub const LANG_TURKISH: u16 = 0x1F;
/// Primary language id of Vietnamese.
pub const LANG_VIETNAMESE: u16 = 0x2A;
/// Primary language id of Thai.
pub const LANG_THAI: u16 = 0x1E;
/// Primary language id of Hindi.
pub const LANG_HINDI: u16 = 0x39;
/// Primary language id of Ukrainian.
pub const LANG_UKRAINIAN: u16 = 0x22;
/// Primary language id of Czech.
pub const LANG_CZECH: u16 = 0x05;
/// Primary language id of Greek.
pub const LANG_GREEK: u16 = 0x08;
/// Primary language id of Swedish.
pub const LANG_SWEDISH: u16 = 0x1D;
/// Primary language id of Norwegian.
pub const LANG_NORWEGIAN: u16 = 0x14;
/// Primary language id of Danish.
pub const LANG_DANISH: u16 = 0x06;
/// Primary language id of Finnish.
pub const LANG_FINNISH: u16 = 0x0B;

/// The state of a keyboard layout module.
pub struct KeyboardLayoutView {
    pub cached_text: Seq<char>,
    pub current_layout: isize,
    pub language_code: Seq<char>,
    pub language_name: Seq<char>,
}

/// Keyboard layout module
pub struct KeyboardLayoutModule {
    cached_text: String,
    current_layout: isize,
    language_code: String,
    language_name: String,
}

impl View for KeyboardLayoutModule {
    type V = KeyboardLayoutView;

    closed spec fn view(&self) -> KeyboardLayoutView {
        KeyboardLayoutView {
            cached_text: self.cached_text@,
            current_layout: self.current_layout,
            language_code: self.language_code@,
            language_name: self.language_name@,
        }
    }
}

/// The two-letter code and the English name of a primary language id.
pub open spec fn language_info(primary_lang: u16) -> (Seq<char>, Seq<char>) {
    if primary_lang == LANG_ENGLISH {
        ("EN"@, "English"@)
    } else if primary_lang == LANG_SPANISH {
        ("ES"@, "Spanish"@)
    } else if primary_lang == LANG_FRENCH {
        ("FR"@, "French"@)
    } else if primary_lang == LANG_GERMAN {
        ("DE"@, "German"@)
    } else if primary_lang == LANG_ITALIAN {
        ("IT"@, "Italian"@)
    } else if primary_lang == LANG_PORTUGUESE {
        ("PT"@, "Portuguese"@)
    } else if primary_lang == LANG_RUSSIAN {
        ("RU"@, "Russian"@)
    } else if primary_lang == LANG_CHINESE {
        ("ZH"@, "Chinese"@)
    } else if primary_lang == LANG_JAPANESE {
        ("JA"@, "Japanese"@)
    } else if primary_lang == LANG_KOREAN {
        ("KO"@, "Korean"@)
    } else if primary_lang == LANG_ARABIC {
        ("AR"@, "Arabic"@)
    } else if primary_lang == LANG_HEBREW {
        ("HE"@, "Hebrew"@)
    } else if primary_lang == LANG_POLISH {
        ("PL"@, "Polish"@)
    } else if primary_lang == LANG_DUTCH {
        ("NL"@, "Dutch"@)
    } else if primary_lang == LANG_TURKISH {
        ("TR"@, "Turkish"@)
    } else if primary_lang == LANG_VIETNAMESE {
        ("VI"@, "Vietnamese"@)
    } else if primary_lang == LANG_THAI {
        ("TH"@, "Thai"@)
    } else if primary_lang == LANG_HINDI {
        ("HI"@, "Hindi"@)
    } else if primary_lang == LANG_UKRAINIAN {
        ("UK"@, "Ukrainian"@)
    } else if primary_lang == LANG_CZECH {
        ("CS"@, "Czech"@)
    } else if primary_lang == LANG_GREEK {
        ("EL"@, "Greek"@)
    } else if primary_lang == LANG_SWEDISH {
        ("SV"@, "Swedish"@)
    } else if primary_lang == LANG_NORWEGIAN {
        ("NO"@, "Norwegian"@)
    } else if primary_lang == LANG_DANISH {
        ("DA"@, "Danish"@)
    } else if primary_lang == LANG_FINNISH {
        ("FI"@, "Finnish"@)
    } else {
        ("??"@, "Unknown"@)
    }
}

/// The primary language id in a keyboard layout handle: the low ten bits of its low word.
pub open spec fn primary_language(layout: isize) -> u16 {
    (((layout as usize) & 0xFFFF) as u16) & 0x3FF
}

impl KeyboardLayoutModule {
    pub fn new() -> (m: KeyboardLayoutModule)
        ensures
            m@.cached_text == Seq::<char>::empty(),
            m@.current_layout == 0,
            m@.language_code == Seq::<char>::empty(),
            m@.language_name == Seq::<char>::empty(),
    {
        KeyboardLayoutModule {
            cached_text: String::new(),
            current_layout: 0,
            language_code: String::new(),
            language_name: String::new(),
        }
    }

    /// Take in the foreground window's keyboard layout handle and rebuild the text.
    pub fn force_update(&mut self, layout: isize)
        ensures
            final(self)@.current_layout == layout,
            final(self)@.language_code == language_info(primary_language(layout)).0,
            final(self)@.language_name == language_info(primary_language(layout)).1,
            final(self)@.cached_text == language_info(primary_language(layout)).0,
    {
        self.query_keyboard_layout(layout);
        self.cached_text = self.language_code.clone();
    }

    /// Record a keyboard layout handle and the language it names.
    pub fn query_keyboard_layout(&mut self, layout: isize)
        ensures
            final(self)@.current_layout == layout,
            final(self)@.language_code == language_info(primary_language(layout)).0,
            final(self)@.language_name == language_info(primary_language(layout)).1,
            final(self)@.cached_text == old(self)@.cached_text,
    {
        self.current_layout = layout;
        let lang_id = ((layout as usize) & 0xFFFF) as u16;
        let primary_lang = lang_id & 0x3FF;
        let (code, name) = Self::get_language_info(primary_lang);
        self.language_code = code;
        self.language_name = name;
    }

    /// Get language code and name from primary language ID
    pub fn get_language_info(primary_lang: u16) -> (r: (String, String))
        ensures
            (r.0@, r.1@) == language_info(primary_lang),
    {
        if primary_lang == LANG_ENGLISH {
            (string_of("EN"), string_of("English"))
        } else if primary_lang == LANG_SPANISH {
            (string_of("ES"), string_of("Spanish"))
        } else if primary_lang == LANG_FRENCH {
            (string_of("FR"), string_of("French"))
        } else if primary_lang == LANG_GERMAN {
            (string_of("DE"), string_of("German"))
        } else if primary_lang == LANG_ITALIAN {
            (string_of("IT"), string_of("Italian"))
        } else if primary_lang == LANG_PORTUGUESE {
            (string_of("PT"), string_of("Portuguese"))
        } else if primary_lang == LANG_RUSSIAN {
            (string_of("RU"), string_of("Russian"))
        } else if primary_lang == LANG_CHINESE {
            (string_of("ZH"), string_of("Chinese"))
        } else if primary_lang == LANG_JAPANESE {
            (string_of("JA"), string_of("Japanese"))
        } else if primary_lang == LANG_KOREAN {
            (string_of("KO"), string_of("Korean"))
        } else if primary_lang == LANG_ARABIC {
            (string_of("AR"), string_of("Arabic"))
        } else if primary_lang == LANG_HEBREW {
            (string_of("HE"), string_of("Hebrew"))
        } else if primary_lang == LANG_POLISH {
            (string_of("PL"), string_of("Polish"))
        } else if primary_lang == LANG_DUTCH {
            (string_of("NL"), string_of("Dutch"))
        } else if primary_lang == LANG_TURKISH {
            (string_of("TR"), string_of("Turkish"))
        } else if primary_lang == LANG_VIETNAMESE {
            (string_of("VI"), string_of("Vietnamese"))
        } else if primary_lang == LANG_THAI {
            (string_of("TH"), string_of("Thai"))
        } else if primary_lang == LANG_HINDI {
            (string_of("HI"), string_of("Hindi"))
        } else if primary_lang == LANG_UKRAINIAN {
            (string_of("UK"), string_of("Ukrainian"))
        } else if primary_lang == LANG_CZECH {
            (string_of("CS"), string_of("Czech"))
        } else if primary_lang == LANG_GREEK {
            (string_of("EL"), string_of("Greek"))
        } else if primary_lang == LANG_SWEDISH {
            (string_of("SV"), string_of("Swedish"))
        } else if primary_lang == LANG_NORWEGIAN {
            (string_of("NO"), string_of("Norwegian"))
        } else if primary_lang == LANG_DANISH {
            (string_of("DA"), string_of("Danish"))
        } else if primary_lang == LANG_FINNISH {
            (string_of("FI"), string_of("Finnish"))
        } else {
            (string_of("??"), string_of("Unknown"))
        }
    }

    /// Get current language code
    pub fn language_code(&self) -> (r: &str)
        ensures
            r@ == self@.language_code,
    {
        self.language_code.as_str()
    }

    /// Get current language name
    pub fn language_name(&self) -> (r: &str)
        ensures
            r@ == self@.language_name,
    {
        self.language_name.as_str()
    }

    /// The text shown in the bar
    pub fn bar_text(&self) -> (s: String)
        ensures
            s@ == "⌨ "@ + self@.language_code,
    {
        let mut s = string_of("⌨ ");
        push_str(&mut s, self.language_code.as_str());
        s
    }

    /// The tooltip text
    pub fn tooltip_text(&self) -> (s: String)
        ensures
            s@ == "Keyboard Layout: "@ + self@.language_name + "\nClick to switch layout"@,
    {
        let mut s = string_of("Keyboard Layout: ");
        push_str(&mut s, self.language_name.as_str());
        push_str(&mut s, "\nClick to switch layout");
        s
    }
}

impl Module for KeyboardLayoutModule {
    open spec fn spec_id(&self) -> Seq<char> {
        "keyboard_layout"@
    }

    fn id(&self) -> (r: &str) {
        "keyboard_layout"
    }

    fn name(&self) -> &str {
        "Keyboard Layout"
    }

    open spec fn spec_refreshed(&self, before: &Self, config: ModulesConfig) -> bool {
        self@ == KeyboardLayoutView { cached_text: before@.language_code, ..before@ }
    }

    open spec fn spec_text(&self, config: ModulesConfig) -> Seq<char> {
        "⌨ "@ + self@.language_code
    }

    open spec fn spec_tooltip(&self, r: Option<Seq<char>>) -> bool {
        r == Some("Keyboard Layout: "@ + self@.language_name + "\nClick to switch layout"@)
    }

    open spec fn spec_visible(&self) -> bool {
        true
    }

    fn display_text(&self, _config: &ModulesConfig) -> (s: String) {
        self.bar_text()
    }

    fn update(&mut self, _config: &ModulesConfig) {
        self.cached_text = self.language_code.clone();
    }

    fn tooltip(&self) -> (r: Option<String>) {
        Some(self.tooltip_text())
    }

    fn is_visible(&self) -> (b: bool) {
        true
    }

    fn preferred_width(&self) -> i32 {
        0
    }
}

} // verus!
