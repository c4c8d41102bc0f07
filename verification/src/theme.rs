//! Theme colours: parsing of `#rrggbb` strings and the configuration that a theme file carries.

use vstd::prelude::*;
use vstd::string::*;
use vstd::utf8::*;

use crate::text::{chars_of, strip_leading, trim, trim_bounds, trim_end, trim_start};

verus! {

/// A terminal colour as the theme uses it: an exact RGB value, or the terminal's own default.
#[derive(Clone, Copy, Debug, PartialEq, Eq, Structural)]
pub enum Color {
    Reset,
    Rgb(u8, u8, u8),
}

/// The value of `c` as a base-16 digit, as `char::to_digit(16)` gives it.
pub open spec fn hex_digit_value(c: char) -> Option<u8> {
    if '0' <= c <= '9' {
        Some((c as u32 - '0' as u32) as u8)
    } else if 'a' <= c <= 'f' {
        Some((c as u32 - 'a' as u32 + 10) as u8)
    } else if 'A' <= c <= 'F' {
        Some((c as u32 - 'A' as u32 + 10) as u8)
    } else {
        None
    }
}

/// What `u8::from_str_radix` gives for the two-character string `[a, b]` in base 16:
/// two digits, or a `+` sign followed by one digit.
pub open spec fn hex_byte_value(a: char, b: char) -> Option<u8> {
    if a == '+' {
        hex_digit_value(b)
    } else {
        match (hex_digit_value(a), hex_digit_value(b)) {
            (Some(x), Some(y)) => Some((x * 16 + y) as u8),
            _ => None,
        }
    }
}

/// The part of a colour string that holds the digits: trimmed, then without leading `#`s.
pub open spec fn hex_body(s: Seq<char>) -> Seq<char> {
    strip_leading(trim(s), '#')
}

/// The colour that a theme string denotes: `Rgb` when its body is three base-16 bytes, `Reset` otherwise.
pub open spec fn color_of(s: Seq<char>) -> Color {
    let h = hex_body(s);
    if h.len() == 6 && hex_byte_value(h[0], h[1]) is Some && hex_byte_value(h[2], h[3]) is Some
        && hex_byte_value(h[4], h[5]) is Some {
        Color::Rgb(
            hex_byte_value(h[0], h[1])->0,
            hex_byte_value(h[2], h[3])->0,
            hex_byte_value(h[4], h[5])->0,
        )
    } else {
        Color::Reset
    }
}

/// The colour string can be cut into its three byte pairs: when its body is six bytes long in
/// UTF-8, the cuts after the second and fourth byte fall on character boundaries.
pub open spec fn color_text_sliceable(s: Seq<char>) -> bool {
    let b = encode_utf8(hex_body(s));
    b.len() == 6 ==> is_char_boundary(b, 2) && is_char_boundary(b, 4)
}

fn hex_digit(c: char) -> (r: Option<u8>)
    ensures
        r == hex_digit_value(c),
{
    if '0' <= c && c <= '9' {
        Some((c as u32 - '0' as u32) as u8)
    } else if 'a' <= c && c <= 'f' {
        Some((c as u32 - 'a' as u32 + 10) as u8)
    } else if 'A' <= c && c <= 'F' {
        Some((c as u32 - 'A' as u32 + 10) as u8)
    } else {
        None
    }
}

fn hex_byte(a: char, b: char) -> (r: Option<u8>)
    ensures
        r == hex_byte_value(a, b),
{
    if a == '+' {
        hex_digit(b)
    } else {
        match (hex_digit(a), hex_digit(b)) {
            (Some(x), Some(y)) => Some(x * 16 + y),
            _ => None,
        }
    }
}

/// Where the body of a colour string lies among its characters `v`: trimmed, then past the
/// leading `#`s.
fn hex_body_bounds(v: &Vec<char>) -> (r: (usize, usize))
    ensures
        r.0 <= r.1 <= v.len(),
        v@.subrange(r.0 as int, r.1 as int) == hex_body(v@),
{
    let (mut lo, hi) = trim_bounds(v, 0, v.len());
    proof {
        assert(v@.subrange(0, v@.len() as int) =~= v@);
    }
    while lo < hi && v[lo] == '#'
        invariant
            lo <= hi <= v.len(),
            hex_body(v@) == strip_leading(v@.subrange(lo as int, hi as int), '#'),
        decreases hi - lo,
    {
        proof {
            assert(v@.subrange(lo as int, hi as int).drop_first() =~= v@.subrange(
                lo + 1,
                hi as int,
            ));
        }
        lo = lo + 1;
    }
    (lo, hi)
}

/// Parses a theme colour such as `"#cba6f7"`: surrounding white space and leading `#`s are
/// ignored, and anything but three base-16 bytes gives `Color::Reset`.
pub fn parse_hex_color(hex: &str) -> (c: Color)
    requires
        color_text_sliceable(hex@),
    ensures
        c == color_of(hex@),
{
    let v = chars_of(hex);
    let (lo, hi) = hex_body_bounds(&v);
    if hi - lo == 6 {
        match (hex_byte(v[lo], v[lo + 1]), hex_byte(v[lo + 2], v[lo + 3]), hex_byte(v[lo + 4], v[lo + 5])) {
            (Some(r), Some(g), Some(b)) => Color::Rgb(r, g, b),
            _ => Color::Reset,
        }
    } else {
        Color::Reset
    }
}

/// Whether the colour string can be cut into its three byte pairs, as `parse_hex_color` needs.
pub fn color_text_is_sliceable(hex: &str) -> (b: bool)
    ensures
        b == color_text_sliceable(hex@),
{
    let v = chars_of(hex);
    let (lo, hi) = hex_body_bounds(&v);
    let body = hex.substring_char(lo, hi);
    body.as_bytes().len() != 6 || (body.is_char_boundary(2) && body.is_char_boundary(4))
}

/// Whether an absent entry, or the colour string of a present one, can be cut into byte pairs.
fn entry_is_sliceable(entry: &Option<String>) -> (b: bool)
    ensures
        b == entry_sliceable(*entry),
{
    match entry {
        Some(s) => color_text_is_sliceable(s.as_str()),
        None => true,
    }
}

/// The colour strings of a theme file, one optional entry per element of the interface.
#[derive(Clone, Debug)]
pub struct ThemeConfig {
    pub border: Option<String>,
    pub title: Option<String>,
    pub active: Option<String>,
    pub inactive: Option<String>,
    pub text: Option<String>,
    pub highlight_bg: Option<String>,
    pub highlight_fg: Option<String>,
    pub accent: Option<String>,
    pub default_tag: Option<String>,
    pub search: Option<String>,
    pub status: Option<String>,
}

/// The entry is absent, or holds exactly the text `t`.
pub open spec fn holds_text(entry: Option<String>, t: Seq<char>) -> bool {
    entry matches Some(s) && s@ == t
}

/// An absent entry, or one whose colour string can be cut into byte pairs.
pub open spec fn entry_sliceable(entry: Option<String>) -> bool {
    entry matches Some(s) ==> color_text_sliceable(s@)
}

/// The colour that an entry gives an element whose colour is `c` so far.
pub open spec fn entry_color(c: Color, entry: Option<String>) -> Color {
    match entry {
        Some(s) => color_of(s@),
        None => c,
    }
}

impl ThemeConfig {
    /// Every entry is present and holds the Catppuccin Mocha colour string of its element.
    pub open spec fn is_mocha(&self) -> bool {
        &&& holds_text(self.border, "#cba6f7"@)
        &&& holds_text(self.title, "#f5c2e7"@)
        &&& holds_text(self.active, "#a6e3a1"@)
        &&& holds_text(self.inactive, "#f38ba8"@)
        &&& holds_text(self.text, "#cdd6f4"@)
        &&& holds_text(self.highlight_bg, "#313244"@)
        &&& holds_text(self.highlight_fg, "#f9e2af"@)
        &&& holds_text(self.accent, "#89b4fa"@)
        &&& holds_text(self.default_tag, "#fab387"@)
        &&& holds_text(self.search, "#74c7ec"@)
        &&& holds_text(self.status, "#a6adc8"@)
    }

    /// Every present entry can be cut into byte pairs.
    pub open spec fn sliceable(&self) -> bool {
        &&& entry_sliceable(self.border)
        &&& entry_sliceable(self.title)
        &&& entry_sliceable(self.active)
        &&& entry_sliceable(self.inactive)
        &&& entry_sliceable(self.text)
        &&& entry_sliceable(self.highlight_bg)
        &&& entry_sliceable(self.highlight_fg)
        &&& entry_sliceable(self.accent)
        &&& entry_sliceable(self.default_tag)
        &&& entry_sliceable(self.search)
        &&& entry_sliceable(self.status)
    }

    /// Every entry is absent.
    pub open spec fn is_empty(&self) -> bool {
        &&& self.border is None
        &&& self.title is None
        &&& self.active is None
        &&& self.inactive is None
        &&& self.text is None
        &&& self.highlight_bg is None
        &&& self.highlight_fg is None
        &&& self.accent is None
        &&& self.default_tag is None
        &&& self.search is None
        &&& self.status is None
    }

    /// Whether every present entry can be cut into byte pairs, as `Theme::apply_config` needs.
    pub fn is_sliceable(&self) -> (b: bool)
        ensures
            b == self.sliceable(),
    {
        entry_is_sliceable(&self.border) && entry_is_sliceable(&self.title)
            && entry_is_sliceable(&self.active) && entry_is_sliceable(&self.inactive)
            && entry_is_sliceable(&self.text) && entry_is_sliceable(&self.highlight_bg)
            && entry_is_sliceable(&self.highlight_fg) && entry_is_sliceable(&self.accent)
            && entry_is_sliceable(&self.default_tag) && entry_is_sliceable(&self.search)
            && entry_is_sliceable(&self.status)
    }

    /// The Catppuccin Mocha palette, the configuration written for a new installation.
    pub fn default_mocha() -> (c: Self)
        ensures
            c.is_mocha(),
    {
        Self {
            border: Some("#cba6f7".to_owned()),  // Lavender
            title: Some("#f5c2e7".to_owned()),  // Pink
            active: Some("#a6e3a1".to_owned()),  // Green
            inactive: Some("#f38ba8".to_owned()),  // Red
            text: Some("#cdd6f4".to_owned()),  // Text
            highlight_bg: Some("#313244".to_owned()),  // Surface1
            highlight_fg: Some("#f9e2af".to_owned()),  // Yellow
            accent: Some("#89b4fa".to_owned()),  // Blue
            default_tag: Some("#fab387".to_owned()),  // Peach
            search: Some("#74c7ec".to_owned()),  // Sapphire
            status: Some("#a6adc8".to_owned()),  // Subtext0
        }
    }
}

/// The colour of every element of the interface.
#[derive(Clone, Copy, Debug, PartialEq, Eq, Structural)]
pub struct Theme {
    pub border: Color,
    pub title: Color,
    pub active: Color,
    pub inactive: Color,
    pub text: Color,
    pub highlight_bg: Color,
    pub highlight_fg: Color,
    pub accent: Color,
    pub default_tag: Color,
    pub search: Color,
    pub status: Color,
}

impl Theme {
    /// The Catppuccin Mocha theme.
    pub open spec fn mocha_spec() -> Theme {
        Theme {
            border: Color::Rgb(203, 166, 247),
            title: Color::Rgb(245, 194, 231),
            active: Color::Rgb(166, 227, 161),
            inactive: Color::Rgb(243, 139, 168),
            text: Color::Rgb(205, 214, 244),
            highlight_bg: Color::Rgb(49, 50, 68),
            highlight_fg: Color::Rgb(249, 226, 175),
            accent: Color::Rgb(137, 180, 250),
            default_tag: Color::Rgb(250, 179, 135),
            search: Color::Rgb(116, 199, 236),
            status: Color::Rgb(166, 173, 200),
        }
    }

    /// The theme once the entries of `cfg` are applied: each present entry replaces the colour of its element.
    pub open spec fn with_config(self, cfg: ThemeConfig) -> Theme {
        Theme {
            border: entry_color(self.border, cfg.border),
            title: entry_color(self.title, cfg.title),
            active: entry_color(self.active, cfg.active),
            inactive: entry_color(self.inactive, cfg.inactive),
            text: entry_color(self.text, cfg.text),
            highlight_bg: entry_color(self.highlight_bg, cfg.highlight_bg),
            highlight_fg: entry_color(self.highlight_fg, cfg.highlight_fg),
            accent: entry_color(self.accent, cfg.accent),
            default_tag: entry_color(self.default_tag, cfg.default_tag),
            search: entry_color(self.search, cfg.search),
            status: entry_color(self.status, cfg.status),
        }
    }

    /// Applies the present entries of a configuration, each parsed as a colour.
    pub fn apply_config(&mut self, config: ThemeConfig)
        requires
            config.sliceable(),
        ensures
            *final(self) == old(self).with_config(config),
    {
        if let Some(hex) = config.border { self.border = parse_hex_color(hex.as_str()); }
        if let Some(hex) = config.title { self.title = parse_hex_color(hex.as_str()); }
        if let Some(hex) = config.active { self.active = parse_hex_color(hex.as_str()); }
        if let Some(hex) = config.inactive { self.inactive = parse_hex_color(hex.as_str()); }
        if let Some(hex) = config.text { self.text = parse_hex_color(hex.as_str()); }
        if let Some(hex) = config.highlight_bg { self.highlight_bg = parse_hex_color(hex.as_str()); }
        if let Some(hex) = config.highlight_fg { self.highlight_fg = parse_hex_color(hex.as_str()); }
        if let Some(hex) = config.accent { self.accent = parse_hex_color(hex.as_str()); }
        if let Some(hex) = config.default_tag { self.default_tag = parse_hex_color(hex.as_str()); }
        if let Some(hex) = config.search { self.search = parse_hex_color(hex.as_str()); }
        if let Some(hex) = config.status { self.status = parse_hex_color(hex.as_str()); }
    }
}

/// A colour string of `#` and six base-16 digits can be cut into byte pairs, and denotes the
/// RGB value of those pairs.
pub proof fn lemma_plain_hex_color(s: Seq<char>)
    requires
        s.len() == 7,
        s[0] == '#',
        forall|i: int| 1 <= i < 7 ==> (#[trigger] hex_digit_value(s[i])) is Some,
    ensures
        color_text_sliceable(s),
        color_of(s) == Color::Rgb(
            hex_byte_value(s[1], s[2])->0,
            hex_byte_value(s[3], s[4])->0,
            hex_byte_value(s[5], s[6])->0,
        ),
{
    let h = s.drop_first();
    assert(hex_digit_value(s[6]) is Some);
    assert(hex_digit_value(s[1]) is Some);
    assert(trim_start(s) == s);
    assert(trim_end(s) == s);
    assert(strip_leading(h, '#') == h);
    assert(hex_body(s) == h);
    assert forall|i: int| 0 <= i < h.len() implies '\0' <= #[trigger] h[i] <= '\u{7f}' by {
        assert(hex_digit_value(s[i + 1]) is Some);
    }
    assert(is_ascii_chars(h));
    is_ascii_chars_encode_utf8(h);
    encode_utf8_valid_utf8(h);
    let b = encode_utf8(h);
    assert(h[2] as u8 == b[2]);
    assert(h[4] as u8 == b[4]);
    is_char_boundary_iff_not_is_continuation_byte(b, 2);
    is_char_boundary_iff_not_is_continuation_byte(b, 4);
}

/// The colour of an entry that holds `lit`, a `#` and six base-16 digits: the RGB value of its
/// three byte pairs; the entry can be cut into byte pairs.
proof fn lemma_entry_literal(c: Color, e: Option<String>, lit: Seq<char>)
    requires
        holds_text(e, lit),
        lit.len() == 7,
        lit[0] == '#',
        hex_digit_value(lit[1]) is Some,
        hex_digit_value(lit[2]) is Some,
        hex_digit_value(lit[3]) is Some,
        hex_digit_value(lit[4]) is Some,
        hex_digit_value(lit[5]) is Some,
        hex_digit_value(lit[6]) is Some,
    ensures
        entry_sliceable(e),
        entry_color(c, e) == Color::Rgb(
            hex_byte_value(lit[1], lit[2])->0,
            hex_byte_value(lit[3], lit[4])->0,
            hex_byte_value(lit[5], lit[6])->0,
        ),
{
    assert forall|i: int| 1 <= i < 7 implies (#[trigger] hex_digit_value(lit[i])) is Some by {
        if i == 1 {
        } else if i == 2 {
        } else if i == 3 {
        } else if i == 4 {
        } else if i == 5 {
        } else {
        }
    }
    lemma_plain_hex_color(lit);
}

/// Law: applying the Mocha configuration gives the Mocha theme, whatever the colours were before;
/// each of its colour strings can be cut into byte pairs.
pub proof fn lemma_mocha_config_fixes_theme(t: Theme, cfg: ThemeConfig)
    requires
        cfg.is_mocha(),
    ensures
        cfg.sliceable(),
        t.with_config(cfg) == Theme::mocha_spec(),
{
    assert(entry_sliceable(cfg.border) && entry_color(t.border, cfg.border) == Theme::mocha_spec().border) by {
        reveal_strlit("#cba6f7");
        lemma_entry_literal(t.border, cfg.border, "#cba6f7"@);
    }
    assert(entry_sliceable(cfg.title) && entry_color(t.title, cfg.title) == Theme::mocha_spec().title) by {
        reveal_strlit("#f5c2e7");
        lemma_entry_literal(t.title, cfg.title, "#f5c2e7"@);
    }
    assert(entry_sliceable(cfg.active) && entry_color(t.active, cfg.active) == Theme::mocha_spec().active) by {
        reveal_strlit("#a6e3a1");
        lemma_entry_literal(t.active, cfg.active, "#a6e3a1"@);
    }
    assert(entry_sliceable(cfg.inactive) && entry_color(t.inactive, cfg.inactive) == Theme::mocha_spec().inactive) by {
        reveal_strlit("#f38ba8");
        lemma_entry_literal(t.inactive, cfg.inactive, "#f38ba8"@);
    }
    assert(entry_sliceable(cfg.text) && entry_color(t.text, cfg.text) == Theme::mocha_spec().text) by {
        reveal_strlit("#cdd6f4");
        lemma_entry_literal(t.text, cfg.text, "#cdd6f4"@);
    }
    assert(entry_sliceable(cfg.highlight_bg) && entry_color(t.highlight_bg, cfg.highlight_bg) == Theme::mocha_spec().highlight_bg) by {
        reveal_strlit("#313244");
        lemma_entry_literal(t.highlight_bg, cfg.highlight_bg, "#313244"@);
    }
    assert(entry_sliceable(cfg.highlight_fg) && entry_color(t.highlight_fg, cfg.highlight_fg) == Theme::mocha_spec().highlight_fg) by {
        reveal_strlit("#f9e2af");
        lemma_entry_literal(t.highlight_fg, cfg.highlight_fg, "#f9e2af"@);
    }
    assert(entry_sliceable(cfg.accent) && entry_color(t.accent, cfg.accent) == Theme::mocha_spec().accent) by {
        reveal_strlit("#89b4fa");
        lemma_entry_literal(t.accent, cfg.accent, "#89b4fa"@);
    }
    assert(entry_sliceable(cfg.default_tag) && entry_color(t.default_tag, cfg.default_tag) == Theme::mocha_spec().default_tag) by {
        reveal_strlit("#fab387");
        lemma_entry_literal(t.default_tag, cfg.default_tag, "#fab387"@);
    }
    assert(entry_sliceable(cfg.search) && entry_color(t.search, cfg.search) == Theme::mocha_spec().search) by {
        reveal_strlit("#74c7ec");
        lemma_entry_literal(t.search, cfg.search, "#74c7ec"@);
    }
    assert(entry_sliceable(cfg.status) && entry_color(t.status, cfg.status) == Theme::mocha_spec().status) by {
        reveal_strlit("#a6adc8");
        lemma_entry_literal(t.status, cfg.status, "#a6adc8"@);
    }
}

impl Theme {
    /// The Catppuccin Mocha theme: every element starts at `Reset` and takes its Mocha colour.
    pub fn mocha() -> (t: Self)
        ensures
            t == Theme::mocha_spec(),
    {
        let mut theme = Self {
            border: Color::Reset,
            title: Color::Reset,
            active: Color::Reset,
            inactive: Color::Reset,
            text: Color::Reset,
            highlight_bg: Color::Reset,
            highlight_fg: Color::Reset,
            accent: Color::Reset,
            default_tag: Color::Reset,
            search: Color::Reset,
            status: Color::Reset,
        };
        let config = ThemeConfig::default_mocha();
        proof {
            lemma_mocha_config_fixes_theme(theme, config);
        }
        theme.apply_config(config);
        theme
    }
}

/// Law: applying a configuration a second time changes nothing. `apply_config` ends in
/// `with_config` of its configuration, so two calls with the same configuration (each allowed
/// when its colour strings can be cut into byte pairs) end where one call ends.
pub proof fn lemma_apply_config_idempotent(t: Theme, cfg: ThemeConfig)
    ensures
        t.with_config(cfg).with_config(cfg) == t.with_config(cfg),
{
}

/// Law: a configuration without entries leaves every colour as it was.
pub proof fn lemma_empty_config_keeps_theme(t: Theme, cfg: ThemeConfig)
    requires
        cfg.is_empty(),
    ensures
        t.with_config(cfg) == t,
{
}

impl Theme {
    /// The theme of a start or a reload: Mocha, with the entries of the theme file applied
    /// when the file could be read and parsed (`config` is then `Some`).
    pub fn load_or_default(config: Option<ThemeConfig>) -> (t: Self)
        requires
            config matches Some(c) ==> c.sliceable(),
        ensures
            t == match config {
                Some(c) => Theme::mocha_spec().with_config(c),
                None => Theme::mocha_spec(),
            },
    {
        let mut theme = Self::mocha();
        if let Some(c) = config {
            theme.apply_config(c);
        }
        theme
    }
}

} // verus!
