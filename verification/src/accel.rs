//! Accelerator-string grammar: tokens joined by `+`, leading tokens naming
//! modifiers, the final token naming a key. `parse` turns such a string into
//! a modifier set plus key code, or reports exactly which token was bad.

use vstd::prelude::*;
use vstd::string::StrSliceExecFns;
use vstd::string::StringExecFns;

verus! {

broadcast use vstd::string::group_string_axioms;

/// Which primary-modifier convention the running platform follows: the
/// `CommandOrControl` family of tokens resolves to the Meta key on the
/// Mac-like family and to Control everywhere else.
#[derive(Clone, Copy, PartialEq, Eq, Structural, Debug)]
pub enum Platform {
    MacOs,
    Other,
}

/// The set of modifier keys named by an accelerator.
#[derive(Clone, Copy, PartialEq, Eq, Structural, Debug)]
pub struct Modifiers {
    pub control: bool,
    pub alt: bool,
    pub shift: bool,
    pub meta: bool,
}

impl Modifiers {
    pub open spec fn spec_empty() -> Modifiers {
        Modifiers { control: false, alt: false, shift: false, meta: false }
    }

    pub fn empty() -> (m: Modifiers)
        ensures
            m == Modifiers::spec_empty(),
    {
        Modifiers { control: false, alt: false, shift: false, meta: false }
    }

    /// Union of two modifier sets, field by field.
    pub open spec fn spec_or(self, other: Modifiers) -> Modifiers {
        Modifiers {
            control: self.control || other.control,
            alt: self.alt || other.alt,
            shift: self.shift || other.shift,
            meta: self.meta || other.meta,
        }
    }

    pub fn or(self, other: Modifiers) -> (m: Modifiers)
        ensures
            m == self.spec_or(other),
    {
        Modifiers {
            control: self.control || other.control,
            alt: self.alt || other.alt,
            shift: self.shift || other.shift,
            meta: self.meta || other.meta,
        }
    }
}

/// The fixed key vocabulary: letters, digits, and six named keys.
#[derive(Clone, Copy, PartialEq, Eq, Structural, Debug)]
pub enum KeyCode {
    KeyA,
    KeyB,
    KeyC,
    KeyD,
    KeyE,
    KeyF,
    KeyG,
    KeyH,
    KeyI,
    KeyJ,
    KeyK,
    KeyL,
    KeyM,
    KeyN,
    KeyO,
    KeyP,
    KeyQ,
    KeyR,
    KeyS,
    KeyT,
    KeyU,
    KeyV,
    KeyW,
    KeyX,
    KeyY,
    KeyZ,
    Digit0,
    Digit1,
    Digit2,
    Digit3,
    Digit4,
    Digit5,
    Digit6,
    Digit7,
    Digit8,
    Digit9,
    Space,
    Enter,
    Tab,
    Escape,
    Backspace,
    Delete,
}

/// A fully parsed accelerator: a modifier set and exactly one key.
#[derive(Clone, Copy, PartialEq, Eq, Structural, Debug)]
pub struct ParsedAccelerator {
    pub mods: Modifiers,
    pub key: KeyCode,
}

/// Why a parse failed, at the specification level (token contents as
/// character sequences).
pub ghost enum SpecParseError {
    EmptyInput,
    UnknownModifier(Seq<char>),
    UnknownKey(Seq<char>),
}

/// Why a parse failed. `UnknownModifier` carries the offending token after
/// trimming; `UnknownKey` carries it after trimming and upper-casing.
#[derive(Debug)]
pub enum ParseError {
    EmptyInput,
    UnknownModifier(String),
    UnknownKey(String),
}

impl View for ParseError {
    type V = SpecParseError;

    open spec fn view(&self) -> SpecParseError {
        match self {
            ParseError::EmptyInput => SpecParseError::EmptyInput,
            ParseError::UnknownModifier(t) => SpecParseError::UnknownModifier(t@),
            ParseError::UnknownKey(t) => SpecParseError::UnknownKey(t@),
        }
    }
}

impl ParseError {
    /// The text of this error, as the display surface.
    pub open spec fn spec_message(&self) -> Seq<char> {
        match self {
            ParseError::EmptyInput => "Empty shortcut"@,
            ParseError::UnknownModifier(t) => "Unknown modifier: "@ + t@,
            ParseError::UnknownKey(t) => "Unknown key: "@ + t@,
        }
    }

    /// Render this error as a plain message string.
    pub fn message(&self) -> (r: String)
        ensures
            r@ == self.spec_message(),
    {
        match self {
            ParseError::EmptyInput => String::from_str("Empty shortcut"),
            ParseError::UnknownModifier(t) => String::from_str("Unknown modifier: ").concat(
                t.as_str(),
            ),
            ParseError::UnknownKey(t) => String::from_str("Unknown key: ").concat(t.as_str()),
        }
    }
}

impl PartialEq for ParseError {
    fn eq(&self, other: &ParseError) -> (r: bool) {
        match (self, other) {
            (ParseError::EmptyInput, ParseError::EmptyInput) => true,
            (ParseError::UnknownModifier(a), ParseError::UnknownModifier(b)) => a.eq(b),
            (ParseError::UnknownKey(a), ParseError::UnknownKey(b)) => a.eq(b),
            _ => false,
        }
    }
}

impl vstd::std_specs::cmp::PartialEqSpecImpl for ParseError {
    open spec fn obeys_eq_spec() -> bool {
        true
    }

    open spec fn eq_spec(&self, other: &ParseError) -> bool {
        self@ == other@
    }
}

impl Eq for ParseError {

}

/// Characters stripped from both ends of every token before it is matched.
pub open spec fn is_ws(c: char) -> bool {
    c == ' ' || c == '\t' || c == '\n' || c == '\r'
}

fn is_ws_exec(c: char) -> (r: bool)
    ensures
        r == is_ws(c),
{
    c == ' ' || c == '\t' || c == '\n' || c == '\r'
}

pub open spec fn spec_trim_start(s: Seq<char>) -> Seq<char>
    decreases s.len(),
{
    if s.len() > 0 && is_ws(s[0]) {
        spec_trim_start(s.drop_first())
    } else {
        s
    }
}

pub open spec fn spec_trim_end(s: Seq<char>) -> Seq<char>
    decreases s.len(),
{
    if s.len() > 0 && is_ws(s[s.len() - 1]) {
        spec_trim_end(s.drop_last())
    } else {
        s
    }
}

/// A token with surrounding whitespace removed.
pub open spec fn spec_trim(s: Seq<char>) -> Seq<char> {
    spec_trim_end(spec_trim_start(s))
}

/// Strip leading and trailing whitespace from a token.
fn trim_str<'a>(s: &'a str) -> (r: &'a str)
    ensures
        r@ == spec_trim(s@),
{
    let n = s.unicode_len();
    let mut lo: usize = 0;
    proof {
        assert(s@.subrange(0, n as int) =~= s@);
    }
    while lo < n && is_ws_exec(s.get_char(lo))
        invariant
            lo <= n,
            n == s@.len(),
            spec_trim_start(s@) == spec_trim_start(s@.subrange(lo as int, n as int)),
        decreases n - lo,
    {
        proof {
            assert(s@.subrange(lo as int, n as int).drop_first() =~= s@.subrange(
                lo as int + 1,
                n as int,
            ));
        }
        lo += 1;
    }
    proof {
        assert(spec_trim_start(s@) == s@.subrange(lo as int, n as int));
    }
    let mut hi: usize = n;
    while hi > lo && is_ws_exec(s.get_char(hi - 1))
        invariant
            lo <= hi <= n,
            n == s@.len(),
            spec_trim_start(s@) == s@.subrange(lo as int, n as int),
            spec_trim_end(s@.subrange(lo as int, n as int)) == spec_trim_end(
                s@.subrange(lo as int, hi as int),
            ),
        decreases hi - lo,
    {
        proof {
            assert(s@.subrange(lo as int, hi as int).drop_last() =~= s@.subrange(
                lo as int,
                hi as int - 1,
            ));
        }
        hi -= 1;
    }
    proof {
        assert(spec_trim(s@) == s@.subrange(lo as int, hi as int));
    }
    s.substring_char(lo, hi)
}

/// Character-for-character equality of two string slices.
pub(crate) fn str_eq(a: &str, b: &str) -> (r: bool)
    ensures
        r == (a@ == b@),
{
    let alen = a.unicode_len();
    let blen = b.unicode_len();
    if alen != blen {
        proof {
            if a@ == b@ {
                assert(a@.len() == b@.len());
            }
        }
        return false;
    }
    let mut i: usize = 0;
    while i < alen
        invariant
            i <= alen,
            alen == a@.len(),
            alen == b@.len(),
            forall|j: int| 0 <= j < i ==> a@[j] == b@[j],
        decreases alen - i,
    {
        let ca = a.get_char(i);
        let cb = b.get_char(i);
        if ca != cb {
            proof {
                if a@ == b@ {
                    assert(a@[i as int] == b@[i as int]);
                }
            }
            return false;
        }
        i += 1;
    }
    proof {
        assert(a@ =~= b@);
    }
    true
}

/// Relies on String::push: appends the given character to the end of the
/// string, changing nothing else.
#[verifier::external_body]
fn push_char(s: &mut String, c: char)
    ensures
        final(s)@ == old(s)@.push(c),
{
    s.push(c)
}

/// ASCII upper-casing of one character: the twenty-six lower-case letters
/// map to their upper-case forms, everything else is unchanged.
pub open spec fn spec_upper_char(c: char) -> char {
    if c == 'a' {
        'A'
    } else if c == 'b' {
        'B'
    } else if c == 'c' {
        'C'
    } else if c == 'd' {
        'D'
    } else if c == 'e' {
        'E'
    } else if c == 'f' {
        'F'
    } else if c == 'g' {
        'G'
    } else if c == 'h' {
        'H'
    } else if c == 'i' {
        'I'
    } else if c == 'j' {
        'J'
    } else if c == 'k' {
        'K'
    } else if c == 'l' {
        'L'
    } else if c == 'm' {
        'M'
    } else if c == 'n' {
        'N'
    } else if c == 'o' {
        'O'
    } else if c == 'p' {
        'P'
    } else if c == 'q' {
        'Q'
    } else if c == 'r' {
        'R'
    } else if c == 's' {
        'S'
    } else if c == 't' {
        'T'
    } else if c == 'u' {
        'U'
    } else if c == 'v' {
        'V'
    } else if c == 'w' {
        'W'
    } else if c == 'x' {
        'X'
    } else if c == 'y' {
        'Y'
    } else if c == 'z' {
        'Z'
    } else {
        c
    }
}

fn upper_char(c: char) -> (r: char)
    ensures
        r == spec_upper_char(c),
{
    match c {
        'a' => 'A',
        'b' => 'B',
        'c' => 'C',
        'd' => 'D',
        'e' => 'E',
        'f' => 'F',
        'g' => 'G',
        'h' => 'H',
        'i' => 'I',
        'j' => 'J',
        'k' => 'K',
        'l' => 'L',
        'm' => 'M',
        'n' => 'N',
        'o' => 'O',
        'p' => 'P',
        'q' => 'Q',
        'r' => 'R',
        's' => 'S',
        't' => 'T',
        'u' => 'U',
        'v' => 'V',
        'w' => 'W',
        'x' => 'X',
        'y' => 'Y',
        'z' => 'Z',
        _ => c,
    }
}

/// ASCII upper-casing of a whole token.
pub open spec fn spec_upper(s: Seq<char>) -> Seq<char> {
    Seq::new(s.len(), |i: int| spec_upper_char(s[i]))
}

/// Upper-case a token, character by character.
fn upper_string(s: &str) -> (r: String)
    ensures
        r@ == spec_upper(s@),
{
    let n = s.unicode_len();
    let mut r = String::new();
    let mut i: usize = 0;
    while i < n
        invariant
            i <= n,
            n == s@.len(),
            r@ =~= spec_upper(s@.subrange(0, i as int)),
        decreases n - i,
    {
        let c = s.get_char(i);
        let u = upper_char(c);
        push_char(&mut r, u);
        proof {
            assert(spec_upper(s@.subrange(0, i as int)).push(spec_upper_char(s@[i as int]))
                =~= spec_upper(s@.subrange(0, i as int + 1)));
        }
        i += 1;
    }
    proof {
        assert(s@.subrange(0, n as int) =~= s@);
    }
    r
}

/// The modifier set named by one (already trimmed) modifier token, or
/// `None` when the token is not in the modifier vocabulary.
pub open spec fn spec_modifier_token(t: Seq<char>, p: Platform) -> Option<Modifiers> {
    if t == "CommandOrControl"@ || t == "Cmd"@ || t == "Command"@ {
        if p == Platform::MacOs {
            Some(Modifiers { control: false, alt: false, shift: false, meta: true })
        } else {
            Some(Modifiers { control: true, alt: false, shift: false, meta: false })
        }
    } else if t == "Ctrl"@ || t == "Control"@ {
        Some(Modifiers { control: true, alt: false, shift: false, meta: false })
    } else if t == "Alt"@ || t == "Option"@ {
        Some(Modifiers { control: false, alt: true, shift: false, meta: false })
    } else if t == "Shift"@ {
        Some(Modifiers { control: false, alt: false, shift: true, meta: false })
    } else if t == "Meta"@ {
        Some(Modifiers { control: false, alt: false, shift: false, meta: true })
    } else {
        None
    }
}

fn modifier_token(t: &str, p: Platform) -> (r: Option<Modifiers>)
    ensures
        r == spec_modifier_token(t@, p),
{
    if str_eq(t, "CommandOrControl") || str_eq(t, "Cmd") || str_eq(t, "Command") {
        match p {
            Platform::MacOs => Some(
                Modifiers { control: false, alt: false, shift: false, meta: true },
            ),
            Platform::Other => Some(
                Modifiers { control: true, alt: false, shift: false, meta: false },
            ),
        }
    } else if str_eq(t, "Ctrl") || str_eq(t, "Control") {
        Some(Modifiers { control: true, alt: false, shift: false, meta: false })
    } else if str_eq(t, "Alt") || str_eq(t, "Option") {
        Some(Modifiers { control: false, alt: true, shift: false, meta: false })
    } else if str_eq(t, "Shift") {
        Some(Modifiers { control: false, alt: false, shift: true, meta: false })
    } else if str_eq(t, "Meta") {
        Some(Modifiers { control: false, alt: false, shift: false, meta: true })
    } else {
        None
    }
}

/// The key named by a single (already upper-cased) character.
pub open spec fn spec_key_char(c: char) -> Option<KeyCode> {
    if c == 'A' {
        Some(KeyCode::KeyA)
    } else if c == 'B' {
        Some(KeyCode::KeyB)
    } else if c == 'C' {
        Some(KeyCode::KeyC)
    } else if c == 'D' {
        Some(KeyCode::KeyD)
    } else if c == 'E' {
        Some(KeyCode::KeyE)
    } else if c == 'F' {
        Some(KeyCode::KeyF)
    } else if c == 'G' {
        Some(KeyCode::KeyG)
    } else if c == 'H' {
        Some(KeyCode::KeyH)
    } else if c == 'I' {
        Some(KeyCode::KeyI)
    } else if c == 'J' {
        Some(KeyCode::KeyJ)
    } else if c == 'K' {
        Some(KeyCode::KeyK)
    } else if c == 'L' {
        Some(KeyCode::KeyL)
    } else if c == 'M' {
        Some(KeyCode::KeyM)
    } else if c == 'N' {
        Some(KeyCode::KeyN)
    } else if c == 'O' {
        Some(KeyCode::KeyO)
    } else if c == 'P' {
        Some(KeyCode::KeyP)
    } else if c == 'Q' {
        Some(KeyCode::KeyQ)
    } else if c == 'R' {
        Some(KeyCode::KeyR)
    } else if c == 'S' {
        Some(KeyCode::KeyS)
    } else if c == 'T' {
        Some(KeyCode::KeyT)
    } else if c == 'U' {
        Some(KeyCode::KeyU)
    } else if c == 'V' {
        Some(KeyCode::KeyV)
    } else if c == 'W' {
        Some(KeyCode::KeyW)
    } else if c == 'X' {
        Some(KeyCode::KeyX)
    } else if c == 'Y' {
        Some(KeyCode::KeyY)
    } else if c == 'Z' {
        Some(KeyCode::KeyZ)
    } else if c == '0' {
        Some(KeyCode::Digit0)
    } else if c == '1' {
        Some(KeyCode::Digit1)
    } else if c == '2' {
        Some(KeyCode::Digit2)
    } else if c == '3' {
        Some(KeyCode::Digit3)
    } else if c == '4' {
        Some(KeyCode::Digit4)
    } else if c == '5' {
        Some(KeyCode::Digit5)
    } else if c == '6' {
        Some(KeyCode::Digit6)
    } else if c == '7' {
        Some(KeyCode::Digit7)
    } else if c == '8' {
        Some(KeyCode::Digit8)
    } else if c == '9' {
        Some(KeyCode::Digit9)
    } else {
        None
    }
}

fn key_char(c: char) -> (r: Option<KeyCode>)
    ensures
        r == spec_key_char(c),
{
    match c {
        'A' => Some(KeyCode::KeyA),
        'B' => Some(KeyCode::KeyB),
        'C' => Some(KeyCode::KeyC),
        'D' => Some(KeyCode::KeyD),
        'E' => Some(KeyCode::KeyE),
        'F' => Some(KeyCode::KeyF),
        'G' => Some(KeyCode::KeyG),
        'H' => Some(KeyCode::KeyH),
        'I' => Some(KeyCode::KeyI),
        'J' => Some(KeyCode::KeyJ),
        'K' => Some(KeyCode::KeyK),
        'L' => Some(KeyCode::KeyL),
        'M' => Some(KeyCode::KeyM),
        'N' => Some(KeyCode::KeyN),
        'O' => Some(KeyCode::KeyO),
        'P' => Some(KeyCode::KeyP),
        'Q' => Some(KeyCode::KeyQ),
        'R' => Some(KeyCode::KeyR),
        'S' => Some(KeyCode::KeyS),
        'T' => Some(KeyCode::KeyT),
        'U' => Some(KeyCode::KeyU),
        'V' => Some(KeyCode::KeyV),
        'W' => Some(KeyCode::KeyW),
        'X' => Some(KeyCode::KeyX),
        'Y' => Some(KeyCode::KeyY),
        'Z' => Some(KeyCode::KeyZ),
        '0' => Some(KeyCode::Digit0),
        '1' => Some(KeyCode::Digit1),
        '2' => Some(KeyCode::Digit2),
        '3' => Some(KeyCode::Digit3),
        '4' => Some(KeyCode::Digit4),
        '5' => Some(KeyCode::Digit5),
        '6' => Some(KeyCode::Digit6),
        '7' => Some(KeyCode::Digit7),
        '8' => Some(KeyCode::Digit8),
        '9' => Some(KeyCode::Digit9),
        _ => None,
    }
}

/// The key named by one (already trimmed and upper-cased) key token, or
/// `None` when the token is not in the key vocabulary.
pub open spec fn spec_key_of(t: Seq<char>) -> Option<KeyCode> {
    if t.len() == 1 {
        spec_key_char(t[0])
    } else if t == "SPACE"@ {
        Some(KeyCode::Space)
    } else if t == "ENTER"@ {
        Some(KeyCode::Enter)
    } else if t == "TAB"@ {
        Some(KeyCode::Tab)
    } else if t == "ESCAPE"@ {
        Some(KeyCode::Escape)
    } else if t == "BACKSPACE"@ {
        Some(KeyCode::Backspace)
    } else if t == "DELETE"@ {
        Some(KeyCode::Delete)
    } else {
        None
    }
}

fn key_token(t: &str) -> (r: Option<KeyCode>)
    ensures
        r == spec_key_of(t@),
{
    if t.unicode_len() == 1 {
        key_char(t.get_char(0))
    } else if str_eq(t, "SPACE") {
        proof {
            reveal_strlit("SPACE");
        }
        Some(KeyCode::Space)
    } else if str_eq(t, "ENTER") {
        proof {
            reveal_strlit("ENTER");
        }
        Some(KeyCode::Enter)
    } else if str_eq(t, "TAB") {
        proof {
            reveal_strlit("TAB");
        }
        Some(KeyCode::Tab)
    } else if str_eq(t, "ESCAPE") {
        proof {
            reveal_strlit("ESCAPE");
        }
        Some(KeyCode::Escape)
    } else if str_eq(t, "BACKSPACE") {
        proof {
            reveal_strlit("BACKSPACE");
        }
        Some(KeyCode::Backspace)
    } else if str_eq(t, "DELETE") {
        proof {
            reveal_strlit("DELETE");
        }
        Some(KeyCode::Delete)
    } else {
        None
    }
}

/// One pass over the remaining input `s`, with `cur` the token read so far
/// and `m` the modifiers recognised so far: tokens end at each `+`, every
/// token before the last must be a modifier, and the last is the key.
pub open spec fn spec_parse_rec(
    s: Seq<char>,
    cur: Seq<char>,
    m: Modifiers,
    p: Platform,
) -> Result<ParsedAccelerator, SpecParseError>
    decreases s.len(),
{
    if s.len() == 0 {
        match spec_key_of(spec_upper(spec_trim(cur))) {
            Some(k) => Ok(ParsedAccelerator { mods: m, key: k }),
            None => Err(SpecParseError::UnknownKey(spec_upper(spec_trim(cur)))),
        }
    } else if s[0] == '+' {
        match spec_modifier_token(spec_trim(cur), p) {
            Some(mm) => spec_parse_rec(s.drop_first(), Seq::empty(), m.spec_or(mm), p),
            None => Err(SpecParseError::UnknownModifier(spec_trim(cur))),
        }
    } else {
        spec_parse_rec(s.drop_first(), cur.push(s[0]), m, p)
    }
}

/// What `parse` returns on any input: an empty string is rejected outright,
/// and otherwise the input is read token by token as `spec_parse_rec` says.
pub open spec fn spec_parse(s: Seq<char>, p: Platform) -> Result<
    ParsedAccelerator,
    SpecParseError,
> {
    if s.len() == 0 {
        Err(SpecParseError::EmptyInput)
    } else {
        spec_parse_rec(s, Seq::empty(), Modifiers::spec_empty(), p)
    }
}

/// How an executable parse result corresponds to the specification-level
/// one: equal on success, equal token text inside equal error variants.
pub open spec fn parse_matches(
    r: Result<ParsedAccelerator, ParseError>,
    s: Result<ParsedAccelerator, SpecParseError>,
) -> bool {
    match r {
        Ok(a) => s == Ok::<ParsedAccelerator, SpecParseError>(a),
        Err(e) => match s {
            Ok(_) => false,
            Err(se) => e@ == se,
        },
    }
}

/// Parse an accelerator string into a modifier set plus key code.
///
/// The result is exactly `spec_parse` of the input: deterministic, total,
/// and failing with the precise offending token otherwise.
pub fn parse(input: &str, platform: Platform) -> (r: Result<ParsedAccelerator, ParseError>)
    ensures
        parse_matches(r, spec_parse(input@, platform)),
{
    let n = input.unicode_len();
    if n == 0 {
        return Err(ParseError::EmptyInput);
    }
    let mut mods = Modifiers::empty();
    let mut ts: usize = 0;
    let mut i: usize = 0;
    proof {
        assert(input@.subrange(0, n as int) =~= input@);
        assert(input@.subrange(0, 0) =~= Seq::<char>::empty());
    }
    while i < n
        invariant
            ts <= i <= n,
            n == input@.len(),
            n > 0,
            spec_parse(input@, platform) == spec_parse_rec(
                input@.subrange(i as int, n as int),
                input@.subrange(ts as int, i as int),
                mods,
                platform,
            ),
        decreases n - i,
    {
        let c = input.get_char(i);
        if c == '+' {
            let tok = input.substring_char(ts, i);
            let trimmed = trim_str(tok);
            match modifier_token(trimmed, platform) {
                Some(mm) => {
                    proof {
                        assert(input@.subrange(i as int, n as int).drop_first() =~= input@
                            .subrange(i as int + 1, n as int));
                        assert(input@.subrange(i as int + 1, i as int + 1) =~= Seq::<
                            char,
                        >::empty());
                    }
                    mods = mods.or(mm);
                    i += 1;
                    ts = i;
                }
                None => {
                    return Err(ParseError::UnknownModifier(String::from_str(trimmed)));
                }
            }
        } else {
            proof {
                assert(input@.subrange(ts as int, i as int + 1) =~= input@.subrange(
                    ts as int,
                    i as int,
                ).push(input@[i as int]));
                assert(input@.subrange(i as int, n as int).drop_first() =~= input@.subrange(
                    i as int + 1,
                    n as int,
                ));
            }
            i += 1;
        }
    }
    proof {
        assert(input@.subrange(n as int, n as int) =~= Seq::<char>::empty());
    }
    let tok = input.substring_char(ts, n);
    let trimmed = trim_str(tok);
    let upper = upper_string(trimmed);
    match key_token(upper.as_str()) {
        Some(k) => Ok(ParsedAccelerator { mods, key: k }),
        None => Err(ParseError::UnknownKey(upper)),
    }
}

/// A token that, after trimming, is in the modifier vocabulary.
pub open spec fn valid_modifier_token(t: Seq<char>, p: Platform) -> bool {
    spec_modifier_token(spec_trim(t), p) is Some
}

/// A token that, after trimming and upper-casing, is in the key vocabulary.
pub open spec fn valid_key_token(t: Seq<char>) -> bool {
    spec_key_of(spec_upper(spec_trim(t))) is Some
}

/// A token that contains no `+`, so joining does not split it further.
pub open spec fn plus_free(t: Seq<char>) -> bool {
    forall|j: int| 0 <= j < t.len() ==> t[j] != '+'
}

/// The accelerator string formed by joining tokens with `+`.
pub open spec fn joined(tokens: Seq<Seq<char>>) -> Seq<char>
    decreases tokens.len(),
{
    if tokens.len() == 0 {
        Seq::empty()
    } else if tokens.len() == 1 {
        tokens[0]
    } else {
        tokens[0] + seq!['+'] + joined(tokens.drop_first())
    }
}

/// A token sequence drawn entirely from the vocabulary: at least one token,
/// none containing `+`, all but the last naming modifiers, the last naming
/// a key.
pub open spec fn well_formed_accel(tokens: Seq<Seq<char>>, p: Platform) -> bool {
    &&& tokens.len() >= 1
    &&& forall|j: int| 0 <= j < tokens.len() ==> plus_free(tokens[j])
    &&& forall|j: int| 0 <= j < tokens.len() - 1 ==> valid_modifier_token(tokens[j], p)
    &&& valid_key_token(tokens[tokens.len() - 1])
}

/// Reading a `+`-free token only moves it from the input to the current
/// token, whatever follows.
proof fn lemma_rec_consumes(
    t: Seq<char>,
    rest: Seq<char>,
    cur: Seq<char>,
    m: Modifiers,
    p: Platform,
)
    requires
        plus_free(t),
    ensures
        spec_parse_rec(t + rest, cur, m, p) == spec_parse_rec(rest, cur + t, m, p),
    decreases t.len(),
{
    if t.len() == 0 {
        assert(t + rest =~= rest);
        assert(cur + t =~= cur);
    } else {
        assert((t + rest)[0] == t[0]);
        assert(t[0] != '+');
        assert((t + rest).len() > 0);
        assert((t + rest).drop_first() =~= t.drop_first() + rest);
        lemma_rec_consumes(t.drop_first(), rest, cur.push(t[0]), m, p);
        assert(cur.push(t[0]) + t.drop_first() =~= cur + t);
    }
}

/// A valid key token is non-empty.
proof fn lemma_valid_key_token_nonempty(t: Seq<char>)
    requires
        valid_key_token(t),
    ensures
        t.len() > 0,
{
    reveal_strlit("SPACE");
    reveal_strlit("ENTER");
    reveal_strlit("TAB");
    reveal_strlit("ESCAPE");
    reveal_strlit("BACKSPACE");
    reveal_strlit("DELETE");
    let u = spec_upper(spec_trim(t));
    assert(u.len() > 0);
    assert(spec_trim(t).len() > 0);
    lemma_trim_len(t);
}

/// Trimming never lengthens a token.
proof fn lemma_trim_len(t: Seq<char>)
    ensures
        spec_trim(t).len() <= t.len(),
{
    lemma_trim_start_len(t);
    lemma_trim_end_len(spec_trim_start(t));
}

proof fn lemma_trim_start_len(t: Seq<char>)
    ensures
        spec_trim_start(t).len() <= t.len(),
    decreases t.len(),
{
    if t.len() > 0 && is_ws(t[0]) {
        lemma_trim_start_len(t.drop_first());
    }
}

proof fn lemma_trim_end_len(t: Seq<char>)
    ensures
        spec_trim_end(t).len() <= t.len(),
    decreases t.len(),
{
    if t.len() > 0 && is_ws(t[t.len() - 1]) {
        lemma_trim_end_len(t.drop_last());
    }
}

/// The union of the modifier sets named by all tokens before the last,
/// folded left to right onto `m`.
pub open spec fn accum_mods(m: Modifiers, tokens: Seq<Seq<char>>, p: Platform) -> Modifiers
    decreases tokens.len(),
{
    if tokens.len() <= 1 {
        m
    } else {
        accum_mods(
            m.spec_or(spec_modifier_token(spec_trim(tokens[0]), p)->Some_0),
            tokens.drop_first(),
            p,
        )
    }
}

/// The key named by a token sequence's last token.
pub open spec fn key_of_tokens(tokens: Seq<Seq<char>>) -> KeyCode {
    spec_key_of(spec_upper(spec_trim(tokens[tokens.len() - 1])))->Some_0
}

proof fn lemma_parse_rec_well_formed(tokens: Seq<Seq<char>>, m: Modifiers, p: Platform)
    requires
        well_formed_accel(tokens, p),
    ensures
        spec_parse_rec(joined(tokens), Seq::empty(), m, p) == Ok::<
            ParsedAccelerator,
            SpecParseError,
        >(ParsedAccelerator { mods: accum_mods(m, tokens, p), key: key_of_tokens(tokens) }),
    decreases tokens.len(),
{
    if tokens.len() == 1 {
        let t = tokens[0];
        assert(joined(tokens) == t);
        assert(t + Seq::<char>::empty() =~= t);
        lemma_rec_consumes(t, Seq::empty(), Seq::empty(), m, p);
        assert(Seq::<char>::empty() + t =~= t);
        assert(spec_parse_rec(Seq::empty(), t, m, p) is Ok);
    } else {
        let t = tokens[0];
        let rest = tokens.drop_first();
        let tail = seq!['+'] + joined(rest);
        assert(joined(tokens) == t + seq!['+'] + joined(rest));
        assert(t + seq!['+'] + joined(rest) =~= t + tail);
        lemma_rec_consumes(t, tail, Seq::empty(), m, p);
        assert(Seq::<char>::empty() + t =~= t);
        assert(tail[0] == '+');
        assert(tail.drop_first() =~= joined(rest));
        assert(valid_modifier_token(t, p));
        let mm = spec_modifier_token(spec_trim(t), p)->Some_0;
        assert(spec_parse_rec(tail, t, m, p) == spec_parse_rec(
            joined(rest),
            Seq::empty(),
            m.spec_or(mm),
            p,
        ));
        assert(well_formed_accel(rest, p)) by {
            assert(forall|j: int|
                0 <= j < rest.len() ==> rest[j] == tokens[j + 1] && plus_free(tokens[j + 1]));
            assert(forall|j: int|
                0 <= j < rest.len() - 1 ==> rest[j] == tokens[j + 1] && valid_modifier_token(
                    tokens[j + 1],
                    p,
                ));
            assert(rest[rest.len() - 1] == tokens[tokens.len() - 1]);
        }
        lemma_parse_rec_well_formed(rest, m.spec_or(mm), p);
    }
}

/// Every accelerator string composed of vocabulary tokens joined by `+`,
/// with a valid trailing key token, parses successfully — to the union of
/// the modifiers its leading tokens name, and the key its last token names.
pub proof fn lemma_parse_well_formed(tokens: Seq<Seq<char>>, p: Platform)
    requires
        well_formed_accel(tokens, p),
    ensures
        spec_parse(joined(tokens), p) == Ok::<ParsedAccelerator, SpecParseError>(
            ParsedAccelerator {
                mods: accum_mods(Modifiers::spec_empty(), tokens, p),
                key: key_of_tokens(tokens),
            },
        ),
{
    lemma_valid_key_token_nonempty(tokens[tokens.len() - 1]);
    if tokens.len() == 1 {
        assert(joined(tokens) == tokens[0]);
        assert(joined(tokens).len() > 0);
    } else {
        assert(joined(tokens).len() > 0);
    }
    lemma_parse_rec_well_formed(tokens, Modifiers::spec_empty(), p);
}

/// Parsing is deterministic: any two results that `parse`'s contract allows
/// for the same input and platform agree, on success and on failure alike.
pub proof fn lemma_parse_deterministic(
    r1: Result<ParsedAccelerator, ParseError>,
    r2: Result<ParsedAccelerator, ParseError>,
    s: Seq<char>,
    p: Platform,
)
    requires
        parse_matches(r1, spec_parse(s, p)),
        parse_matches(r2, spec_parse(s, p)),
    ensures
        r1 is Ok <==> r2 is Ok,
        r1 matches Ok(a1) ==> r2 matches Ok(a2) && a1 == a2,
        r1 matches Err(e1) ==> r2 matches Err(e2) && e1@ == e2@,
{
}

} // verus!
