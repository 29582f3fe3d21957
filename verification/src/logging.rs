//! Logging configuration and the privacy-preserving records of injection
//! attempts: with redaction on, a record shows the text's length and a
//! short hash instead of the text.

use crate::text::{decimal, string_from_chars, u64_to_decimal};
use crate::types::InjectionMethod;
use std::collections::hash_map::DefaultHasher;
use std::hash::Hasher;
use vstd::prelude::*;
use vstd::std_specs::hash::DefaultHasherAdditionalSpecFns;
use vstd::string::StringExecFns;
use vstd::string::StringSliceAdditionalSpecFns;

verus! {

/// Severity of a log record.
#[derive(Debug, Clone, Copy, PartialEq, Eq, Structural)]
pub enum LogLevel {
    Trace,
    Debug,
    Info,
    Warn,
    Error,
}

/// `c` lowercased if it is an ASCII capital letter.
pub open spec fn ascii_lower(c: char) -> char {
    if 'A' <= c && c <= 'Z' {
        ((c as u32) + 32) as char
    } else {
        c
    }
}

/// `a` and `b` are equal ignoring ASCII case.
pub open spec fn eq_ignore_ascii_case(a: Seq<char>, b: Seq<char>) -> bool {
    a.len() == b.len() && forall|i: int| 0 <= i < a.len() ==> ascii_lower(#[trigger] a[i]) == ascii_lower(b[i])
}

/// `c` is an ASCII decimal digit.
pub open spec fn is_ascii_digit(c: char) -> bool {
    '0' <= c && c <= '9'
}

/// The value of a string of decimal digits.
pub open spec fn digits_value(s: Seq<char>) -> int
    decreases s.len(),
{
    if s.len() == 0 {
        0
    } else {
        digits_value(s.drop_last()) * 10 + (s.last() as int - '0' as int)
    }
}

/// The digits of an unsigned number's text: after a leading `+`, if any.
pub open spec fn unsigned_digits(s: Seq<char>) -> Seq<char> {
    if s.len() > 0 && s[0] == '+' {
        s.drop_first()
    } else {
        s
    }
}

/// `d` is one or more decimal digits.
pub open spec fn all_ascii_digits(d: Seq<char>) -> bool {
    d.len() > 0 && forall|i: int| 0 <= i < d.len() ==> is_ascii_digit(#[trigger] d[i])
}

/// The number that `usize::from_str` reads from a text: an optional `+`
/// followed by one or more decimal digits, with a value that fits in `usize`.
pub open spec fn usize_text_value(s: Seq<char>) -> Option<int> {
    let d = unsigned_digits(s);
    if all_ascii_digits(d) && digits_value(d) <= usize::MAX {
        Some(digits_value(d))
    } else {
        None
    }
}

/// The level that `tracing::Level::from_str` reads from a text: its number
/// from 1 (error) to 5 (trace) when the text is such a number, else a level
/// name in any ASCII case.
pub open spec fn level_from_text(s: Seq<char>) -> Option<LogLevel> {
    let n = usize_text_value(s);
    if n == Some(1int) {
        Some(LogLevel::Error)
    } else if n == Some(2int) {
        Some(LogLevel::Warn)
    } else if n == Some(3int) {
        Some(LogLevel::Info)
    } else if n == Some(4int) {
        Some(LogLevel::Debug)
    } else if n == Some(5int) {
        Some(LogLevel::Trace)
    } else if eq_ignore_ascii_case(s, "error"@) {
        Some(LogLevel::Error)
    } else if eq_ignore_ascii_case(s, "warn"@) {
        Some(LogLevel::Warn)
    } else if eq_ignore_ascii_case(s, "info"@) {
        Some(LogLevel::Info)
    } else if eq_ignore_ascii_case(s, "debug"@) {
        Some(LogLevel::Debug)
    } else if eq_ignore_ascii_case(s, "trace"@) {
        Some(LogLevel::Trace)
    } else {
        None
    }
}

/// `<tracing::Level as FromStr>::from_str`: the text is read as a `usize`
/// first (1 to 5 name the levels from error to trace); failing that, as a
/// level name compared ignoring ASCII case.
#[verifier::external_body]
fn parse_tracing_level(s: &str) -> (r: Option<LogLevel>)
    ensures
        r == level_from_text(s@),
{
    match s.parse::<tracing::Level>() {
        Ok(l) if l == tracing::Level::ERROR => Some(LogLevel::Error),
        Ok(l) if l == tracing::Level::WARN => Some(LogLevel::Warn),
        Ok(l) if l == tracing::Level::INFO => Some(LogLevel::Info),
        Ok(l) if l == tracing::Level::DEBUG => Some(LogLevel::Debug),
        Ok(_) => Some(LogLevel::Trace),
        Err(_) => None,
    }
}

/// Configuration of log output.
#[derive(Debug, Clone)]
pub struct LoggingConfig {
    /// Maximum level to emit, as text (for example "INFO").
    pub level: String,
    /// Include the target module.
    pub include_target: bool,
    /// Include thread ids.
    pub include_thread_id: bool,
    /// Include file names.
    pub include_file: bool,
    /// Include line numbers.
    pub include_line_number: bool,
    /// Keep injected text out of logs.
    pub redact_text: bool,
}

impl Default for LoggingConfig {
    fn default() -> (c: Self)
        ensures
            c.level@ == "INFO"@,
            !c.include_target,
            c.include_thread_id,
            c.include_file,
            c.include_line_number,
            c.redact_text,
    {
        LoggingConfig {
            level: String::from_str("INFO"),
            include_target: false,
            include_thread_id: true,
            include_file: true,
            include_line_number: true,
            redact_text: true,
        }
    }
}

impl LoggingConfig {
    /// The configured level, `Info` when the text does not parse.
    pub fn tracing_level(&self) -> (l: LogLevel)
        ensures
            l == match level_from_text(self.level@) {
                Some(p) => p,
                None => LogLevel::Info,
            },
    {
        match parse_tracing_level(self.level.as_str()) {
            Some(l) => l,
            None => LogLevel::Info,
        }
    }
}

/// The low 32 bits of the `DefaultHasher` hash of a text's bytes, fed as
/// `str` hashing feeds them: the bytes, then the byte `0xff`.
pub open spec fn text_hash_spec(bytes: Seq<u8>) -> u32 {
    (DefaultHasher::spec_finish(seq![bytes, seq![0xffu8]]) % 0x1_0000_0000) as u32
}

/// The low 32 bits of `DefaultHasher`'s hash of the text. The hasher's
/// algorithm is not specified across Rust releases, so the value itself is
/// only known through `DefaultHasher::spec_finish`.
fn text_hash32(text: &str) -> (h: u32)
    ensures
        h == text_hash_spec(text.spec_bytes()),
{
    let mut hasher = DefaultHasher::new();
    hasher.write(text.as_bytes());
    let ghost h1 = hasher@;
    let mut end: Vec<u8> = Vec::new();
    end.push(0xffu8);
    assert(end@ =~= seq![0xffu8]);
    hasher.write(end.as_slice());
    assert(h1 =~= seq![text.spec_bytes()]);
    let full = hasher.finish();
    assert(hasher@ =~= seq![text.spec_bytes(), seq![0xffu8]]);
    (full % 0x1_0000_0000) as u32
}

/// The lowercase hexadecimal digit of `d` (for `d < 16`).
pub open spec fn hex_digit(d: nat) -> char {
    if d < 10 {
        (48 + d) as char
    } else {
        (87 + d) as char
    }
}

/// `h` as eight lowercase hexadecimal digits, zero padded (`{:08x}`).
pub open spec fn hex8(h: u32) -> Seq<char> {
    Seq::new(8, |i: int| hex_digit(((h as int / pow16(7 - i)) % 16) as nat))
}

/// 16 to the power `n`.
pub open spec fn pow16(n: int) -> int
    decreases n,
{
    if n <= 0 {
        1
    } else {
        16 * pow16(n - 1)
    }
}

fn hex_char(d: u32) -> (c: char)
    requires
        d < 16,
    ensures
        c == hex_digit(d as nat),
{
    if d < 10 {
        crate::text::digit(d as u64)
    } else if d == 10 {
        'a'
    } else if d == 11 {
        'b'
    } else if d == 12 {
        'c'
    } else if d == 13 {
        'd'
    } else if d == 14 {
        'e'
    } else {
        'f'
    }
}

/// Formats `h` as `{:08x}` does.
pub fn format_hex8(h: u32) -> (s: String)
    ensures
        s@ == hex8(h),
{
    let mut v: Vec<char> = Vec::new();
    let mut shift: u32 = 8;
    while shift > 0
        invariant
            shift <= 8,
            v@.len() == 8 - shift,
            forall|j: int| 0 <= j < v@.len() ==> v@[j] == hex8(h)[j],
        decreases shift,
    {
        shift -= 1;
        let d = (h >> (4 * shift)) & 0xf;
        proof {
            lemma_hex_nibble(h, shift);
        }
        v.push(hex_char(d));
    }
    assert(v@ =~= hex8(h));
    string_from_chars(&v)
}

proof fn lemma_hex_nibble(h: u32, shift: u32)
    requires
        shift < 8,
    ensures
        (h >> (4 * shift)) & 0xf == ((h as int / pow16(shift as int)) % 16),
        (h >> (4 * shift)) & 0xf < 16,
{
    assert(pow16(0) == 1);
    assert(pow16(1) == 16);
    assert(pow16(2) == 256);
    assert(pow16(3) == 4096);
    assert(pow16(4) == 65536);
    assert(pow16(5) == 1048576);
    assert(pow16(6) == 16777216);
    assert(pow16(7) == 268435456);
    assert((h >> (4 * shift)) & 0xf < 16) by (bit_vector);
    if shift == 0 {
        assert((h >> 0u32) & 0xf == (h % 16)) by (bit_vector);
    } else if shift == 1 {
        assert((h >> 4u32) & 0xf == ((h / 16) % 16)) by (bit_vector);
    } else if shift == 2 {
        assert((h >> 8u32) & 0xf == ((h / 256) % 16)) by (bit_vector);
    } else if shift == 3 {
        assert((h >> 12u32) & 0xf == ((h / 4096) % 16)) by (bit_vector);
    } else if shift == 4 {
        assert((h >> 16u32) & 0xf == ((h / 65536) % 16)) by (bit_vector);
    } else if shift == 5 {
        assert((h >> 20u32) & 0xf == ((h / 1048576) % 16)) by (bit_vector);
    } else if shift == 6 {
        assert((h >> 24u32) & 0xf == ((h / 16777216) % 16)) by (bit_vector);
    } else {
        assert((h >> 28u32) & 0xf == ((h / 268435456) % 16)) by (bit_vector);
    }
}

/// The redacted preview of a text of `len` bytes with hash `h`.
pub open spec fn redacted_preview(len: nat, h: u32) -> Seq<char> {
    "[REDACTED] len="@ + decimal(len) + " hash="@ + hex8(h)
}

/// A redacted preview tells texts apart only by their byte length and their
/// hash: two texts that agree on both get the same preview.
pub proof fn lemma_redaction_reveals_only_length_and_hash(first: Seq<u8>, second: Seq<u8>)
    requires
        first.len() == second.len(),
        text_hash_spec(first) == text_hash_spec(second),
    ensures
        redacted_preview(first.len(), text_hash_spec(first)) == redacted_preview(
            second.len(),
            text_hash_spec(second),
        ),
{
}

/// The text as it may appear in a log: itself, or with redaction on a
/// preview of its length and hash (`"[REDACTED] len=N hash=<8 hex digits>"`).
pub fn display_text(text: &str, redact: bool) -> (s: String)
    ensures
        !redact ==> s@ == text@,
        redact ==> s@ == redacted_preview(text.len() as nat, text_hash_spec(text.spec_bytes())),
{
    if redact {
        let h = text_hash32(text);
        let len = u64_to_decimal(text.len() as u64);
        let hex = format_hex8(h);
        let s = String::from_str("[REDACTED] len=").concat(len.as_str()).concat(" hash=").concat(hex.as_str());
        assert(s@ == redacted_preview(text.len() as nat, h));
        s
    } else {
        String::from_str(text)
    }
}

/// The text for the strategy manager's debug log: itself, or with
/// redaction on its length and hash (`"len=N hash=<8 hex digits>"`).
pub fn redact_text(text: &str, redact: bool) -> (s: String)
    ensures
        !redact ==> s@ == text@,
        redact ==> s@ == "len="@ + decimal(text.len() as nat) + " hash="@ + hex8(text_hash_spec(text.spec_bytes())),
{
    if redact {
        let h = text_hash32(text);
        let len = u64_to_decimal(text.len() as u64);
        let hex = format_hex8(h);
        String::from_str("len=").concat(len.as_str()).concat(" hash=").concat(hex.as_str())
    } else {
        String::from_str(text)
    }
}

/// A structured log record, emitted by the caller's logger.
#[derive(Debug)]
pub struct LogRecord {
    pub level: LogLevel,
    pub message: &'static str,
    pub method: InjectionMethod,
    /// Length of the text in bytes.
    pub text_length: usize,
    pub text_preview: Option<String>,
    pub duration_ms: Option<u64>,
    pub error: Option<String>,
    pub available: Option<bool>,
}

/// The record of an injection attempt.
pub fn log_injection_attempt(method: InjectionMethod, text: &str, redact: bool) -> (r: LogRecord)
    ensures
        r.level == LogLevel::Info,
        r.message@ == "Attempting text injection"@,
        r.method == method,
        r.text_length == text.len(),
        r.text_preview matches Some(p) && (!redact ==> p@ == text@) && (redact ==> p@
            == redacted_preview(text.len() as nat, text_hash_spec(text.spec_bytes()))),
        r.duration_ms is None && r.error is None && r.available is None,
{
    LogRecord {
        level: LogLevel::Info,
        message: "Attempting text injection",
        method,
        text_length: text.len(),
        text_preview: Some(display_text(text, redact)),
        duration_ms: None,
        error: None,
        available: None,
    }
}

/// The record of a successful injection that took `duration_ms`.
pub fn log_injection_success(method: InjectionMethod, text: &str, duration_ms: u64, redact: bool) -> (r: LogRecord)
    ensures
        r.level == LogLevel::Info,
        r.message@ == "Text injection completed successfully"@,
        r.method == method,
        r.text_length == text.len(),
        r.text_preview matches Some(p) && (!redact ==> p@ == text@) && (redact ==> p@
            == redacted_preview(text.len() as nat, text_hash_spec(text.spec_bytes()))),
        r.duration_ms == Some(duration_ms) && r.error is None && r.available is None,
{
    LogRecord {
        level: LogLevel::Info,
        message: "Text injection completed successfully",
        method,
        text_length: text.len(),
        text_preview: Some(display_text(text, redact)),
        duration_ms: Some(duration_ms),
        error: None,
        available: None,
    }
}

/// The record of a failed injection that took `duration_ms`.
pub fn log_injection_failure(
    method: InjectionMethod,
    text: &str,
    error: &str,
    duration_ms: u64,
    redact: bool,
) -> (r: LogRecord)
    ensures
        r.level == LogLevel::Warn,
        r.message@ == "Text injection failed"@,
        r.method == method,
        r.text_length == text.len(),
        r.text_preview matches Some(p) && (!redact ==> p@ == text@) && (redact ==> p@
            == redacted_preview(text.len() as nat, text_hash_spec(text.spec_bytes()))),
        r.duration_ms == Some(duration_ms),
        r.error matches Some(e) && e@ == error@,
        r.available is None,
{
    LogRecord {
        level: LogLevel::Warn,
        message: "Text injection failed",
        method,
        text_length: text.len(),
        text_preview: Some(display_text(text, redact)),
        duration_ms: Some(duration_ms),
        error: Some(String::from_str(error)),
        available: None,
    }
}

/// The record of a method availability check.
pub fn log_method_availability(method: InjectionMethod, available: bool) -> (r: LogRecord)
    ensures
        r.level == LogLevel::Debug,
        r.message@ == "Method availability check"@,
        r.method == method,
        r.text_length == 0,
        r.text_preview is None && r.duration_ms is None && r.error is None,
        r.available == Some(available),
{
    LogRecord {
        level: LogLevel::Debug,
        message: "Method availability check",
        method,
        text_length: 0,
        text_preview: None,
        duration_ms: None,
        error: None,
        available: Some(available),
    }
}

} // verus!
