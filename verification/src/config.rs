//! Configuration values the login form works with: colours and text
//! modifiers parsed from their textual names, `$variable` scanning for the
//! variables file, and the plain option records.

use vstd::prelude::*;

verus! {

/// A terminal colour: a named one, or a 24-bit value given as `#RRGGBB`.
#[derive(Debug, Clone, Copy, PartialEq, Eq, Structural)]
pub enum Color {
    Black,
    Red,
    Green,
    Yellow,
    Blue,
    Magenta,
    Cyan,
    Gray,
    DarkGray,
    LightRed,
    LightGreen,
    LightYellow,
    LightBlue,
    LightMagenta,
    LightCyan,
    White,
    Rgb(u8, u8, u8),
}

/// The packed `0x00RRGGBB` value a colour denotes.
pub open spec fn spec_color_rgb(c: Color) -> int {
    match c {
        Color::Black => 0x000000,
        Color::Red => 0xFF0000,
        Color::Green => 0x00FF00,
        Color::Yellow => 0xFFFF00,
        Color::Blue => 0x0000FF,
        Color::Magenta => 0xFF00FF,
        Color::Cyan => 0x00FFFF,
        Color::Gray => 0x808080,
        Color::DarkGray => 0x404040,
        Color::LightRed => 0xFF8080,
        Color::LightGreen => 0x80FF80,
        Color::LightYellow => 0xFFFF80,
        Color::LightBlue => 0x8080FF,
        Color::LightMagenta => 0xFF80FF,
        Color::LightCyan => 0x80FFFF,
        Color::White => 0xFFFFFF,
        Color::Rgb(r, g, b) => r as int * 0x10000 + g as int * 0x100 + b as int,
    }
}

impl Color {
    /// The colour as a packed `0x00RRGGBB` pixel value, as a framebuffer
    /// wants it.
    pub fn to_rgb(&self) -> (r: u32)
        ensures
            r as int == spec_color_rgb(*self),
    {
        match self {
            Color::Black => 0x000000,
            Color::Red => 0xFF0000,
            Color::Green => 0x00FF00,
            Color::Yellow => 0xFFFF00,
            Color::Blue => 0x0000FF,
            Color::Magenta => 0xFF00FF,
            Color::Cyan => 0x00FFFF,
            Color::Gray => 0x808080,
            Color::DarkGray => 0x404040,
            Color::LightRed => 0xFF8080,
            Color::LightGreen => 0x80FF80,
            Color::LightYellow => 0xFFFF80,
            Color::LightBlue => 0x8080FF,
            Color::LightMagenta => 0xFF80FF,
            Color::LightCyan => 0x80FFFF,
            Color::White => 0xFFFFFF,
            Color::Rgb(r, g, b) => (*r as u32) * 0x10000 + (*g as u32) * 0x100 + (*b as u32),
        }
    }
}

/// A text styling modifier.
#[derive(Debug, Clone, Copy, PartialEq, Eq, Structural)]
pub enum Modifier {
    Bold,
    Dim,
    Italic,
    Underlined,
    SlowBlink,
    RapidBlink,
    Reversed,
    Hidden,
    CrossedOut,
}

/// The code point of a character with an upper-case ASCII letter folded to
/// its lower-case counterpart.
pub open spec fn lower_cp(c: char) -> int {
    if 'A' <= c <= 'Z' {
        c as int + 32
    } else {
        c as int
    }
}

/// The case-folded code points of a string.
pub open spec fn lower_view(s: Seq<char>) -> Seq<int> {
    s.map_values(|c: char| lower_cp(c))
}

/// Whether two characters are equal up to ASCII case.
fn chars_eq_ignore_case(x: char, y: char) -> (r: bool)
    ensures
        r == (lower_cp(x) == lower_cp(y)),
{
    let xl: u32 = if x >= 'A' && x <= 'Z' {
        x as u32 + 32
    } else {
        x as u32
    };
    let yl: u32 = if y >= 'A' && y <= 'Z' {
        y as u32 + 32
    } else {
        y as u32
    };
    xl == yl
}

/// Whether two strings are equal up to ASCII case.
pub fn str_eq_ignore_case(a: &str, b: &str) -> (r: bool)
    ensures
        r == (lower_view(a@) == lower_view(b@)),
{
    let alen = a.unicode_len();
    let blen = b.unicode_len();
    if alen != blen {
        proof {
            assert(lower_view(a@).len() != lower_view(b@).len());
        }
        return false;
    }
    let mut i: usize = 0;
    while i < alen
        invariant
            alen == a@.len(),
            blen == b@.len(),
            alen == blen,
            0 <= i <= alen,
            forall|j: int| 0 <= j < i ==> lower_view(a@)[j] == lower_view(b@)[j],
        decreases alen - i,
    {
        if !chars_eq_ignore_case(a.get_char(i), b.get_char(i)) {
            proof {
                assert(lower_view(a@)[i as int] != lower_view(b@)[i as int]);
            }
            return false;
        }
        i = i + 1;
    }
    proof {
        assert(lower_view(a@) =~= lower_view(b@));
    }
    true
}

/// The value of one hexadecimal digit.
pub open spec fn spec_hex_val(c: char) -> Option<int> {
    if '0' <= c <= '9' {
        Some(c as int - '0' as int)
    } else if 'a' <= c <= 'f' {
        Some(c as int - 'a' as int + 10)
    } else if 'A' <= c <= 'F' {
        Some(c as int - 'A' as int + 10)
    } else {
        None
    }
}

/// Parse one hexadecimal digit.
fn hex_val(c: char) -> (r: Option<u8>)
    ensures
        match r {
            Some(v) => spec_hex_val(c) == Some(v as int),
            None => spec_hex_val(c) is None,
        },
{
    if c >= '0' && c <= '9' {
        Some((c as u32 - '0' as u32) as u8)
    } else if c >= 'a' && c <= 'f' {
        Some((c as u32 - 'a' as u32 + 10) as u8)
    } else if c >= 'A' && c <= 'F' {
        Some((c as u32 - 'A' as u32 + 10) as u8)
    } else {
        None
    }
}

/// The byte two hexadecimal digits denote, where both are digits.
pub open spec fn spec_hex_byte(h: char, l: char) -> int {
    16 * spec_hex_val(h)->Some_0 + spec_hex_val(l)->Some_0
}

/// Whether the string is `#` followed by six hexadecimal digits.
pub open spec fn is_hex_color(s: Seq<char>) -> bool {
    &&& s.len() == 7
    &&& s[0] == '#'
    &&& spec_hex_val(s[1]) is Some
    &&& spec_hex_val(s[2]) is Some
    &&& spec_hex_val(s[3]) is Some
    &&& spec_hex_val(s[4]) is Some
    &&& spec_hex_val(s[5]) is Some
    &&& spec_hex_val(s[6]) is Some
}

/// What a colour name means: `#RRGGBB` is the 24-bit colour, the usual
/// terminal colour names match with their case ignored, anything else is no
/// colour.
pub open spec fn spec_str_to_color(s: Seq<char>) -> Option<Color> {
    if s.len() > 0 && s[0] == '#' {
        if is_hex_color(s) {
            Some(
                Color::Rgb(
                    spec_hex_byte(s[1], s[2]) as u8,
                    spec_hex_byte(s[3], s[4]) as u8,
                    spec_hex_byte(s[5], s[6]) as u8,
                ),
            )
        } else {
            None
        }
    } else if lower_view(s) == lower_view("black"@) {
        Some(Color::Black)
    } else if lower_view(s) == lower_view("red"@) {
        Some(Color::Red)
    } else if lower_view(s) == lower_view("green"@) {
        Some(Color::Green)
    } else if lower_view(s) == lower_view("yellow"@) {
        Some(Color::Yellow)
    } else if lower_view(s) == lower_view("blue"@) {
        Some(Color::Blue)
    } else if lower_view(s) == lower_view("magenta"@) {
        Some(Color::Magenta)
    } else if lower_view(s) == lower_view("cyan"@) {
        Some(Color::Cyan)
    } else if lower_view(s) == lower_view("gray"@) {
        Some(Color::Gray)
    } else if lower_view(s) == lower_view("dark gray"@) {
        Some(Color::DarkGray)
    } else if lower_view(s) == lower_view("light red"@) {
        Some(Color::LightRed)
    } else if lower_view(s) == lower_view("light green"@) {
        Some(Color::LightGreen)
    } else if lower_view(s) == lower_view("light yellow"@) {
        Some(Color::LightYellow)
    } else if lower_view(s) == lower_view("light blue"@) {
        Some(Color::LightBlue)
    } else if lower_view(s) == lower_view("light magenta"@) {
        Some(Color::LightMagenta)
    } else if lower_view(s) == lower_view("light cyan"@) {
        Some(Color::LightCyan)
    } else if lower_view(s) == lower_view("white"@) {
        Some(Color::White)
    } else {
        None
    }
}

/// Parse a colour, exactly as [`spec_str_to_color`] states.
pub fn str_to_color(s: &str) -> (r: Option<Color>)
    ensures
        r == spec_str_to_color(s@),
{
    let len = s.unicode_len();
    if len > 0 && s.get_char(0) == '#' {
        if len != 7 {
            return None;
        }
        let h1 = hex_val(s.get_char(1));
        let h2 = hex_val(s.get_char(2));
        let h3 = hex_val(s.get_char(3));
        let h4 = hex_val(s.get_char(4));
        let h5 = hex_val(s.get_char(5));
        let h6 = hex_val(s.get_char(6));
        match (h1, h2, h3, h4, h5, h6) {
            (Some(a), Some(b), Some(c), Some(d), Some(e), Some(f)) => {
                return Some(Color::Rgb(16 * a + b, 16 * c + d, 16 * e + f));
            },
            _ => {
                return None;
            },
        }
    }
    if str_eq_ignore_case(s, "black") {
        Some(Color::Black)
    } else if str_eq_ignore_case(s, "red") {
        Some(Color::Red)
    } else if str_eq_ignore_case(s, "green") {
        Some(Color::Green)
    } else if str_eq_ignore_case(s, "yellow") {
        Some(Color::Yellow)
    } else if str_eq_ignore_case(s, "blue") {
        Some(Color::Blue)
    } else if str_eq_ignore_case(s, "magenta") {
        Some(Color::Magenta)
    } else if str_eq_ignore_case(s, "cyan") {
        Some(Color::Cyan)
    } else if str_eq_ignore_case(s, "gray") {
        Some(Color::Gray)
    } else if str_eq_ignore_case(s, "dark gray") {
        Some(Color::DarkGray)
    } else if str_eq_ignore_case(s, "light red") {
        Some(Color::LightRed)
    } else if str_eq_ignore_case(s, "light green") {
        Some(Color::LightGreen)
    } else if str_eq_ignore_case(s, "light yellow") {
        Some(Color::LightYellow)
    } else if str_eq_ignore_case(s, "light blue") {
        Some(Color::LightBlue)
    } else if str_eq_ignore_case(s, "light magenta") {
        Some(Color::LightMagenta)
    } else if str_eq_ignore_case(s, "light cyan") {
        Some(Color::LightCyan)
    } else if str_eq_ignore_case(s, "white") {
        Some(Color::White)
    } else {
        None
    }
}

/// What a modifier name means, with its case ignored.
pub open spec fn spec_get_modifier(s: Seq<char>) -> Option<Modifier> {
    if lower_view(s) == lower_view("bold"@) {
        Some(Modifier::Bold)
    } else if lower_view(s) == lower_view("dim"@) {
        Some(Modifier::Dim)
    } else if lower_view(s) == lower_view("italic"@) {
        Some(Modifier::Italic)
    } else if lower_view(s) == lower_view("underlined"@) {
        Some(Modifier::Underlined)
    } else if lower_view(s) == lower_view("slow blink"@) {
        Some(Modifier::SlowBlink)
    } else if lower_view(s) == lower_view("rapid blink"@) {
        Some(Modifier::RapidBlink)
    } else if lower_view(s) == lower_view("reversed"@) {
        Some(Modifier::Reversed)
    } else if lower_view(s) == lower_view("hidden"@) {
        Some(Modifier::Hidden)
    } else if lower_view(s) == lower_view("crossed out"@) {
        Some(Modifier::CrossedOut)
    } else {
        None
    }
}

/// Parse a modifier name, exactly as [`spec_get_modifier`] states.
pub fn get_modifier(s: &str) -> (r: Option<Modifier>)
    ensures
        r == spec_get_modifier(s@),
{
    if str_eq_ignore_case(s, "bold") {
        Some(Modifier::Bold)
    } else if str_eq_ignore_case(s, "dim") {
        Some(Modifier::Dim)
    } else if str_eq_ignore_case(s, "italic") {
        Some(Modifier::Italic)
    } else if str_eq_ignore_case(s, "underlined") {
        Some(Modifier::Underlined)
    } else if str_eq_ignore_case(s, "slow blink") {
        Some(Modifier::SlowBlink)
    } else if str_eq_ignore_case(s, "rapid blink") {
        Some(Modifier::RapidBlink)
    } else if str_eq_ignore_case(s, "reversed") {
        Some(Modifier::Reversed)
    } else if str_eq_ignore_case(s, "hidden") {
        Some(Modifier::Hidden)
    } else if str_eq_ignore_case(s, "crossed out") {
        Some(Modifier::CrossedOut)
    } else {
        None
    }
}

/// A character that may stand in a `$variable` name.
pub open spec fn is_ident_char(c: char) -> bool {
    ('a' <= c <= 'z') || ('A' <= c <= 'Z') || ('0' <= c <= '9') || c == '_'
}

/// Whether a `$variable` begins at position `j`.
pub open spec fn is_var_start(s: Seq<char>, j: int) -> bool {
    &&& 0 <= j
    &&& j + 1 < s.len()
    &&& s[j] == '$'
    &&& is_ident_char(s[j + 1])
}

/// No `$variable` begins anywhere in `[a, b)`.
pub open spec fn no_var_start_in(s: Seq<char>, a: int, b: int) -> bool {
    forall|j: int| a <= j < b ==> !is_var_start(s, j)
}

/// One `$variable` occurrence: its name, and the positions of the name's
/// first character and one past its last.
#[derive(Debug, Clone, PartialEq, Eq)]
pub struct Variable {
    pub ident: String,
    pub start: usize,
    pub end: usize,
}

/// Whether a character may stand in a `$variable` name.
fn is_ident_char_exec(c: char) -> (r: bool)
    ensures
        r == is_ident_char(c),
{
    (c >= 'a' && c <= 'z') || (c >= 'A' && c <= 'Z') || (c >= '0' && c <= '9') || c == '_'
}

/// Walks a text and yields each `$variable` occurrence in order: a `$`
/// followed by at least one name character, the name being the longest such
/// run.
pub struct VariableIterator {
    pub text: String,
    pub pos: usize,
}

impl VariableIterator {
    /// Start scanning a text from its beginning.
    pub fn new(text: &str) -> (r: VariableIterator)
        ensures
            r.text@ == text@,
            r.pos == 0,
    {
        VariableIterator { text: String::from_str(text), pos: 0 }
    }

    /// The next `$variable` at or after the current position, or none if the
    /// rest of the text holds no variable. The scan resumes after the
    /// returned name.
    pub fn next(&mut self) -> (r: Option<Variable>)
        requires
            old(self).pos <= old(self).text@.len(),
        ensures
            final(self).text == old(self).text,
            final(self).pos <= final(self).text@.len(),
            match r {
                Some(v) => {
                    let s = old(self).text@;
                    &&& old(self).pos <= v.start - 1
                    &&& is_var_start(s, v.start - 1)
                    &&& no_var_start_in(s, old(self).pos as int, v.start - 1)
                    &&& v.start <= v.end <= s.len()
                    &&& v.ident@ == s.subrange(v.start as int, v.end as int)
                    &&& (forall|j: int| v.start <= j < v.end ==> is_ident_char(s[j]))
                    &&& (v.end < s.len() ==> !is_ident_char(s[v.end as int]))
                    &&& final(self).pos == v.end
                },
                None => no_var_start_in(
                    old(self).text@,
                    old(self).pos as int,
                    old(self).text@.len() as int,
                ),
            },
    {
        let len = self.text.as_str().unicode_len();
        let mut i: usize = self.pos;
        while len - i > 1 && !(self.text.as_str().get_char(i) == '$' && is_ident_char_exec(
            self.text.as_str().get_char(i + 1),
        ))
            invariant
                len == self.text@.len(),
                self == old(self),
                old(self).pos <= i <= len,
                no_var_start_in(self.text@, old(self).pos as int, i as int),
            decreases len - i,
        {
            i = i + 1;
        }
        if len - i <= 1 {
            proof {
                assert forall|j: int| old(self).pos <= j < self.text@.len() implies !is_var_start(
                    self.text@,
                    j,
                ) by {
                    if j < i {
                    } else {
                        assert(j + 1 >= self.text@.len());
                    }
                }
            }
            self.pos = len;
            return None;
        }
        let start = i + 1;
        let mut e: usize = start;
        while e < len && is_ident_char_exec(self.text.as_str().get_char(e))
            invariant
                len == self.text@.len(),
                self == old(self),
                start <= e <= len,
                forall|j: int| start <= j < e ==> is_ident_char(self.text@[j]),
            decreases len - e,
        {
            e = e + 1;
        }
        let ident = self.text.as_str().substring_char(start, e).to_owned();
        self.pos = e;
        Some(Variable { ident, start, end: e })
    }
}

/// Where the panel sits on the screen.
#[derive(Debug, Clone, Copy, PartialEq, Eq, Structural)]
pub enum PanelPosition {
    Center,
    TopLeft,
    TopCenter,
    TopRight,
    CenterLeft,
    CenterRight,
    BottomLeft,
    BottomCenter,
    BottomRight,
}

/// Which widget holds the focus when the form comes up.
#[derive(Debug, Clone, Copy, PartialEq, Eq, Structural)]
pub enum FocusBehaviour {
    /// Focus the first field the cache did not fill.
    FirstNonCached,
    NoFocus,
    Environment,
    Username,
    Password,
}

/// Whether the environment switcher is shown.
#[derive(Debug, Clone, Copy, PartialEq, Eq, Structural)]
pub enum SwitcherVisibility {
    Visible,
    Hidden,
}

/// The background's colours and border.
#[derive(Debug, Clone)]
pub struct BackgroundStyleConfig {
    pub color: String,
    pub border_color: String,
    pub show_border: bool,
}

/// The background: whether to draw it, an optional image path, and its style.
#[derive(Debug, Clone)]
pub struct BackgroundConfig {
    pub show_background: bool,
    pub image: String,
    pub style: BackgroundStyleConfig,
}

/// The panel box around the input fields.
#[derive(Debug, Clone)]
pub struct PanelConfig {
    pub show_panel: bool,
    pub color: String,
    pub border_color: String,
    pub position: PanelPosition,
}

/// What the login form needs of the configuration.
#[derive(Debug, Clone)]
pub struct FormConfig {
    pub preview_allowed: bool,
    pub focus_behaviour: FocusBehaviour,
    pub switcher_visibility: SwitcherVisibility,
    pub remember_username: bool,
    pub remember_environment: bool,
    pub include_tty_shell: bool,
    pub background: BackgroundConfig,
    pub panel: PanelConfig,
}

} // verus!
