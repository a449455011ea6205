//! The bundled user scripts: reading the version header of a script, and
//! deciding whether an installed copy must be replaced by the bundled one.

use vstd::prelude::*;
use vstd::slice::slice_to_vec;
use vstd::string::StringSliceAdditionalSpecFns;
use vstd::utf8::{decode_utf8, valid_utf8};

verus! {

#[verifier::external_type_specification]
#[verifier::external_body]
pub struct ExRegex(regex::Regex);

#[verifier::external_type_specification]
#[verifier::external_body]
pub struct ExRegexError(regex::Error);

#[verifier::external_type_specification]
#[verifier::external_body]
pub struct ExSemverError(semver::Error);

/// The header line that names a script.
pub const NAME_PATTERN: &'static str = "@name\\s+(.*?)\\n";

/// The header line that gives a script's version.
pub const VERSION_PATTERN: &'static str = "@version\\s+(.*?)\\n";

/// The header line that gives a script's home page.
pub const URL_PATTERN: &'static str = "@url\\s+(.*?)\\n";

/// Whether `regex::Regex::new` accepts the pattern.
pub uninterp spec fn regex_compiles(pattern: Seq<char>) -> bool;

/// The text of capture group 1 in the leftmost match of the pattern in the
/// haystack, as `regex::Regex::captures` finds it; `None` when there is no
/// match or the group took no part in it.
pub uninterp spec fn regex_group_one(pattern: Seq<char>, haystack: Seq<char>) -> Option<Seq<char>>;

/// The text `String::from_utf8_lossy` makes of some bytes.
pub uninterp spec fn utf8_lossy(bytes: Seq<u8>) -> Seq<char>;

/// The parts (major, minor, patch, pre-release, build) of the version
/// `semver::Version::parse` reads from a text, if it accepts it.
pub uninterp spec fn semver_parse(text: Seq<char>) -> Option<(u64, u64, u64, Seq<char>, Seq<char>)>;

/// Whether `>` holds between two `semver::Version`s whose major, minor and
/// patch numbers are equal; the derived ordering then depends only on the
/// pre-release parts and then the build parts.
pub uninterp spec fn semver_tail_gt(
    pre_a: Seq<char>,
    build_a: Seq<char>,
    pre_b: Seq<char>,
    build_b: Seq<char>,
) -> bool;

/// Unicode's White_Space characters, the ones `str::trim` removes.
pub open spec fn is_white_space(c: char) -> bool {
    ||| ('\u{9}' <= c && c <= '\u{d}')
    ||| c == ' '
    ||| c == '\u{85}'
    ||| c == '\u{a0}'
    ||| c == '\u{1680}'
    ||| ('\u{2000}' <= c && c <= '\u{200a}')
    ||| c == '\u{2028}'
    ||| c == '\u{2029}'
    ||| c == '\u{202f}'
    ||| c == '\u{205f}'
    ||| c == '\u{3000}'
}

pub open spec fn trim_start(s: Seq<char>) -> Seq<char>
    decreases s.len(),
{
    if s.len() > 0 && is_white_space(s[0]) {
        trim_start(s.drop_first())
    } else {
        s
    }
}

pub open spec fn trim_end(s: Seq<char>) -> Seq<char>
    decreases s.len(),
{
    if s.len() > 0 && is_white_space(s.last()) {
        trim_end(s.drop_last())
    } else {
        s
    }
}

/// A text without leading and trailing white space.
pub open spec fn trimmed(s: Seq<char>) -> Seq<char> {
    trim_end(trim_start(s))
}

/// A compiled pattern, kept with the text it was compiled from.
pub struct Pattern {
    source: String,
    compiled: regex::Regex,
}

impl Pattern {
    /// The text the pattern was compiled from.
    pub closed spec fn source(&self) -> Seq<char> {
        self.source@
    }

    /// Compiles a pattern with `regex::Regex::new`; it succeeds exactly when
    /// `regex_compiles` holds of the text.
    #[verifier::external_body]
    fn compile(source: &str) -> (r: Result<Pattern, regex::Error>)
        ensures
            r is Ok <==> regex_compiles(source@),
            r matches Ok(p) ==> p.source() == source@,
    {
        match regex::Regex::new(source) {
            Ok(compiled) => Ok(Pattern { source: source.to_string(), compiled }),
            Err(e) => Err(e),
        }
    }

    /// Capture group 1 of the leftmost match in `haystack`, through
    /// `regex::Regex::captures` and `Captures::get(1)`; the result is
    /// `regex_group_one` of the pattern's text and the haystack.
    #[verifier::external_body]
    fn first_group(&self, haystack: &str) -> (r: Option<String>)
        ensures
            match r {
                Some(g) => regex_group_one(self.source(), haystack@) == Some(g@),
                None => regex_group_one(self.source(), haystack@) is None,
            },
    {
        match self.compiled.captures(haystack) {
            Some(caps) => match caps.get(1) {
                Some(m) => Some(m.as_str().to_string()),
                None => None,
            },
            None => None,
        }
    }
}

/// Decodes bytes as UTF-8 with `String::from_utf8_lossy`, which replaces
/// invalid sequences; valid UTF-8 is decoded as it is.
#[verifier::external_body]
fn decode_lossy(data: &[u8]) -> (s: String)
    ensures
        s@ == utf8_lossy(data@),
        valid_utf8(data@) ==> s@ == decode_utf8(data@),
{
    String::from_utf8_lossy(data).into_owned()
}

/// Whether a character is Unicode White_Space.
fn white_space(c: char) -> (r: bool)
    ensures
        r == is_white_space(c),
{
    ('\u{9}' <= c && c <= '\u{d}') || c == ' ' || c == '\u{85}' || c == '\u{a0}' || c
        == '\u{1680}' || ('\u{2000}' <= c && c <= '\u{200a}') || c == '\u{2028}' || c
        == '\u{2029}' || c == '\u{202f}' || c == '\u{205f}' || c == '\u{3000}'
}

/// The text without leading and trailing white space, as `str::trim` gives it.
pub fn trim_text(s: &str) -> (r: String)
    ensures
        r@ == trimmed(s@),
{
    let n = s.unicode_len();
    let ghost t = s@;
    let mut start: usize = 0;
    assert(t.subrange(0, n as int) =~= t);
    loop
        invariant
            n == t.len(),
            t == s@,
            start <= n,
            trim_start(t) == trim_start(t.subrange(start as int, n as int)),
        ensures
            start <= n,
            trim_start(t) == t.subrange(start as int, n as int),
        decreases n - start,
    {
        if start == n {
            break;
        }
        if !white_space(s.get_char(start)) {
            break;
        }
        assert(t.subrange(start as int, n as int).drop_first() =~= t.subrange(
            start + 1,
            n as int,
        ));
        start = start + 1;
    }
    let ghost u = t.subrange(start as int, n as int);
    let mut end: usize = n;
    loop
        invariant
            n == t.len(),
            t == s@,
            start <= end <= n,
            u == t.subrange(start as int, n as int),
            trim_end(u) == trim_end(t.subrange(start as int, end as int)),
        ensures
            start <= end <= n,
            trim_end(u) == t.subrange(start as int, end as int),
        decreases end - start,
    {
        if end == start {
            break;
        }
        if !white_space(s.get_char(end - 1)) {
            break;
        }
        assert(t.subrange(start as int, end as int).drop_last() =~= t.subrange(
            start as int,
            end - 1,
        ));
        end = end - 1;
    }
    String::from_str(s.substring_char(start, end))
}

/// A semantic version as plain values.
pub struct SemVer {
    pub major: u64,
    pub minor: u64,
    pub patch: u64,
    pub pre: String,
    pub build: String,
}

pub open spec fn semver_parts(v: SemVer) -> (u64, u64, u64, Seq<char>, Seq<char>) {
    (v.major, v.minor, v.patch, v.pre@, v.build@)
}

/// Whether a version is one `semver::Version::parse` gives for some text.
pub open spec fn is_parsed(v: SemVer) -> bool {
    exists|t: Seq<char>| semver_parse(t) == Some(semver_parts(v))
}

/// Whether version `a` has higher precedence than version `b`: by major,
/// minor and patch number in turn, then by the pre-release and build parts;
/// a version is never above itself.
pub open spec fn newer(
    a: (u64, u64, u64, Seq<char>, Seq<char>),
    b: (u64, u64, u64, Seq<char>, Seq<char>),
) -> bool {
    &&& a != b
    &&& {
        ||| a.0 > b.0
        ||| (a.0 == b.0 && a.1 > b.1)
        ||| (a.0 == b.0 && a.1 == b.1 && a.2 > b.2)
        ||| (a.0 == b.0 && a.1 == b.1 && a.2 == b.2 && semver_tail_gt(a.3, a.4, b.3, b.4))
    }
}

/// Reads a version with `semver::Version::parse`.
#[verifier::external_body]
fn parse_semver(text: &str) -> (r: Result<SemVer, semver::Error>)
    ensures
        match r {
            Ok(v) => semver_parse(text@) == Some(semver_parts(v)),
            Err(_) => semver_parse(text@) is None,
        },
{
    match semver::Version::parse(text) {
        Ok(v) => Ok(
            SemVer {
                major: v.major,
                minor: v.minor,
                patch: v.patch,
                pre: v.pre.as_str().to_string(),
                build: v.build.as_str().to_string(),
            },
        ),
        Err(e) => Err(e),
    }
}

/// `>` between the two `semver::Version`s with these parts. The parts come
/// from `parse_semver`, so the pre-release and build texts are valid. The
/// derived ordering of `semver::Version` is a total order consistent with
/// equality, so exactly one of `a > b`, `a == b`, `b > a` holds.
#[verifier::external_body]
fn semver_newer(a: &SemVer, b: &SemVer) -> (r: bool)
    requires
        is_parsed(*a),
        is_parsed(*b),
    ensures
        r == (semver_parts(*a) != semver_parts(*b) && (a.major > b.major || (a.major == b.major
            && a.minor > b.minor) || (a.major == b.major && a.minor == b.minor && a.patch > b.patch)
            || (a.major == b.major && a.minor == b.minor && a.patch == b.patch && semver_tail_gt(
            a.pre@,
            a.build@,
            b.pre@,
            b.build@,
        )))),
        r ==> !newer(semver_parts(*b), semver_parts(*a)),
        !r ==> (semver_parts(*a) == semver_parts(*b) || newer(semver_parts(*b), semver_parts(*a))),
{
    let pre_a = semver::Prerelease::new(a.pre.as_str()).unwrap();
    let build_a = semver::BuildMetadata::new(a.build.as_str()).unwrap();
    let pre_b = semver::Prerelease::new(b.pre.as_str()).unwrap();
    let build_b = semver::BuildMetadata::new(b.build.as_str()).unwrap();
    let va = semver::Version { major: a.major, minor: a.minor, patch: a.patch, pre: pre_a, build: build_a };
    let vb = semver::Version { major: b.major, minor: b.minor, patch: b.patch, pre: pre_b, build: build_b };
    va > vb
}

/// The header of a user script.
pub struct VersionInfo {
    pub name: String,
    pub version: String,
    pub url: String,
}

pub struct VersionInfoView {
    pub name: Seq<char>,
    pub version: Seq<char>,
    pub url: Seq<char>,
}

impl View for VersionInfo {
    type V = VersionInfoView;

    open spec fn view(&self) -> VersionInfoView {
        VersionInfoView { name: self.name@, version: self.version@, url: self.url@ }
    }
}

/// Why a script header could not be read or compared.
#[derive(PartialEq, Eq, Structural, Clone, Copy, Debug)]
pub enum TemplateError {
    /// A header pattern does not compile.
    Pattern,
    /// A version is not a semantic version.
    InvalidVersion,
}

/// The value of a header line: the first match's text, trimmed, or empty
/// when the line is absent.
pub open spec fn header_value(pattern: Seq<char>, content: Seq<char>) -> Seq<char> {
    match regex_group_one(pattern, content) {
        Some(g) => trimmed(g),
        None => Seq::empty(),
    }
}

/// The header of a script given as bytes, decoded as UTF-8 with invalid
/// sequences replaced.
pub open spec fn version_info_of(data: Seq<u8>) -> Result<VersionInfoView, TemplateError> {
    if regex_compiles(NAME_PATTERN@) && regex_compiles(VERSION_PATTERN@) && regex_compiles(
        URL_PATTERN@,
    ) {
        let content = utf8_lossy(data);
        Ok(
            VersionInfoView {
                name: header_value(NAME_PATTERN@, content),
                version: header_value(VERSION_PATTERN@, content),
                url: header_value(URL_PATTERN@, content),
            },
        )
    } else {
        Err(TemplateError::Pattern)
    }
}

/// Whether the installed copy of a script (`None` when it cannot be read)
/// must be replaced by `new_data`: a missing or unreadable copy, or one
/// without a version, is replaced; otherwise it is replaced when the new
/// version is newer. Both versions must then be semantic versions.
pub open spec fn update_needed(new_data: Seq<u8>, current: Option<Seq<u8>>) -> Result<
    bool,
    TemplateError,
> {
    match current {
        None => Ok(true),
        Some(cur) => match version_info_of(new_data) {
            Err(e) => Err(e),
            Ok(new_info) => match version_info_of(cur) {
                Err(_) => Ok(true),
                Ok(cur_info) => if cur_info.version.len() == 0 {
                    Ok(true)
                } else {
                    match (semver_parse(new_info.version), semver_parse(cur_info.version)) {
                        (Some(a), Some(b)) => Ok(newer(a, b)),
                        _ => Err(TemplateError::InvalidVersion),
                    }
                },
            },
        },
    }
}

/// The two versions `update_needed` compares, new first, when it compares
/// versions at all.
pub open spec fn versions_compared(new_data: Seq<u8>, current: Option<Seq<u8>>) -> Option<
    ((u64, u64, u64, Seq<char>, Seq<char>), (u64, u64, u64, Seq<char>, Seq<char>)),
> {
    match current {
        None => None,
        Some(cur) => match (version_info_of(new_data), version_info_of(cur)) {
            (Ok(new_info), Ok(cur_info)) => if cur_info.version.len() == 0 {
                None
            } else {
                match (semver_parse(new_info.version), semver_parse(cur_info.version)) {
                    (Some(a), Some(b)) => Some((a, b)),
                    _ => None,
                }
            },
            _ => None,
        },
    }
}

pub open spec fn bytes_of(o: Option<&[u8]>) -> Option<Seq<u8>> {
    match o {
        Some(b) => Some(b@),
        None => None,
    }
}

/// The value of one header line in `content`.
fn header_text(pattern: &Pattern, content: &str) -> (r: String)
    ensures
        r@ == header_value(pattern.source(), content@),
{
    match pattern.first_group(content) {
        Some(g) => trim_text(g.as_str()),
        None => String::new(),
    }
}

fn compile_header(source: &str) -> (r: Result<Pattern, TemplateError>)
    ensures
        r is Ok <==> regex_compiles(source@),
        r matches Ok(p) ==> p.source() == source@,
        r matches Err(e) ==> e == TemplateError::Pattern,
{
    match Pattern::compile(source) {
        Ok(p) => Ok(p),
        Err(_) => Err(TemplateError::Pattern),
    }
}

/// Reads the name, version and URL from the header of a script; a line that
/// is absent gives an empty value.
pub fn read_version_info(data: &[u8]) -> (r: Result<VersionInfo, TemplateError>)
    ensures
        match r {
            Ok(info) => version_info_of(data@) == Ok::<VersionInfoView, TemplateError>(info@),
            Err(e) => version_info_of(data@) == Err::<VersionInfoView, TemplateError>(e),
        },
        r matches Ok(info) ==> no_edge_space(info.name@) && no_edge_space(info.version@)
            && no_edge_space(info.url@),
{
    proof {
        lemma_header_fields_trimmed(data@);
    }
    let content = decode_lossy(data);
    let name_re = match compile_header(NAME_PATTERN) {
        Ok(p) => p,
        Err(e) => return Err(e),
    };
    let version_re = match compile_header(VERSION_PATTERN) {
        Ok(p) => p,
        Err(e) => return Err(e),
    };
    let url_re = match compile_header(URL_PATTERN) {
        Ok(p) => p,
        Err(e) => return Err(e),
    };
    let name = header_text(&name_re, content.as_str());
    let version = header_text(&version_re, content.as_str());
    let url = header_text(&url_re, content.as_str());
    Ok(VersionInfo { name, version, url })
}

/// Whether the installed copy of a script must be replaced by `new_data`;
/// `current` is the installed copy, `None` when it cannot be read.
pub fn needs_update(new_data: &[u8], current: Option<&[u8]>) -> (r: Result<bool, TemplateError>)
    ensures
        r == update_needed(new_data@, bytes_of(current)),
        // The version installed afterwards is the higher of the two.
        match versions_compared(new_data@, bytes_of(current)) {
            Some((a, b)) => {
                &&& r == Ok::<bool, TemplateError>(true) ==> !newer(b, a)
                &&& r == Ok::<bool, TemplateError>(false) ==> (a == b || newer(b, a))
            },
            None => true,
        },
        // Two copies with equal versions are never replaced.
        versions_compared(new_data@, bytes_of(current)) matches Some((a, b)) && a == b ==> r
            == Ok::<bool, TemplateError>(false),
{
    let current = match current {
        None => return Ok(true),
        Some(c) => c,
    };
    let new_info = match read_version_info(new_data) {
        Ok(info) => info,
        Err(e) => return Err(e),
    };
    let current_info = match read_version_info(current) {
        Err(_) => return Ok(true),
        Ok(info) => info,
    };
    if current_info.version.as_str().is_empty() {
        return Ok(true);
    }
    let new_version = match parse_semver(new_info.version.as_str()) {
        Ok(v) => v,
        Err(_) => return Err(TemplateError::InvalidVersion),
    };
    let current_version = match parse_semver(current_info.version.as_str()) {
        Ok(v) => v,
        Err(_) => return Err(TemplateError::InvalidVersion),
    };
    Ok(semver_newer(&new_version, &current_version))
}

/// The bundled ask script, installed next to the settings.
pub const SCRIPT_ASK: &'static str = r#"/**
 * @name ask.js
 * @version 0.1.0
 * @url https://chatgpt.com
 */

class ChatAsk {
  static sync(message) {
    const inputElement = document.querySelector('textarea');
    if (inputElement) {
      const nativeTextareaValueSetter = Object.getOwnPropertyDescriptor(
        window.HTMLTextAreaElement.prototype,
        'value',
      ).set;
      nativeTextareaValueSetter.call(inputElement, message);
      const inputEvent = new InputEvent('input', {
        bubbles: true,
        cancelable: true,
      });
      inputElement.dispatchEvent(inputEvent);
    }
  }

  static submit() {
    const btns = document.querySelectorAll('main form button');
    const btn = btns[btns.length - 1];
    if (btn) {
      btn.focus();
      btn.disabled = false;
      btn.click();
    }
  }
}

window.addEventListener('DOMContentLoaded', function () {
  window.ChatAsk = ChatAsk;
});
"#;

/// The scripts the application injects into its pages.
pub struct Template {
    pub ask: Vec<u8>,
}

impl Default for Template {
    /// The bundled scripts.
    fn default() -> (t: Template)
        ensures
            t.ask@ == SCRIPT_ASK.spec_bytes(),
    {
        Template { ask: slice_to_vec(SCRIPT_ASK.as_bytes()) }
    }
}

/// A copy that cannot be read is always replaced.
pub proof fn lemma_missing_copy_replaced(new_data: Seq<u8>)
    ensures
        update_needed(new_data, None) == Ok::<bool, TemplateError>(true),
{
}

/// A readable copy whose header has no version is replaced, once the new
/// script's header can be read.
pub proof fn lemma_unversioned_copy_replaced(new_data: Seq<u8>, current: Seq<u8>)
    requires
        version_info_of(new_data) is Ok,
        version_info_of(current) is Ok,
        version_info_of(current)->Ok_0.version.len() == 0,
    ensures
        update_needed(new_data, Some(current)) == Ok::<bool, TemplateError>(true),
{
}

/// A copy of the same script, with a valid version, is kept.
pub proof fn lemma_same_script_kept(data: Seq<u8>)
    requires
        version_info_of(data) is Ok,
        version_info_of(data)->Ok_0.version.len() > 0,
        semver_parse(version_info_of(data)->Ok_0.version) is Some,
    ensures
        update_needed(data, Some(data)) == Ok::<bool, TemplateError>(false),
{
}

/// Running the update a second time with the same script, on what the
/// first run left installed, replaces nothing: the bundled script's version
/// must be a valid semantic version.
pub proof fn lemma_second_update_keeps(new_data: Seq<u8>, current: Option<Seq<u8>>, wrote: bool)
    requires
        update_needed(new_data, current) == Ok::<bool, TemplateError>(wrote),
        version_info_of(new_data) is Ok,
        version_info_of(new_data)->Ok_0.version.len() > 0,
        semver_parse(version_info_of(new_data)->Ok_0.version) is Some,
    ensures
        update_needed(new_data, Some(if wrote { new_data } else { current->0 })) == Ok::<
            bool,
            TemplateError,
        >(false),
{
    if wrote {
        lemma_same_script_kept(new_data);
    }
}

/// When the major, minor and patch numbers of the two versions differ, the
/// copy is replaced exactly when the new numbers are higher: an upgrade is
/// installed, a downgrade never.
pub proof fn lemma_replaced_iff_upgrade(new_data: Seq<u8>, current: Seq<u8>)
    requires
        version_info_of(new_data) is Ok,
        version_info_of(current) is Ok,
        version_info_of(current)->Ok_0.version.len() > 0,
        semver_parse(version_info_of(new_data)->Ok_0.version) is Some,
        semver_parse(version_info_of(current)->Ok_0.version) is Some,
        ({
            let a = semver_parse(version_info_of(new_data)->Ok_0.version)->Some_0;
            let b = semver_parse(version_info_of(current)->Ok_0.version)->Some_0;
            (a.0, a.1, a.2) != (b.0, b.1, b.2)
        }),
    ensures
        ({
            let a = semver_parse(version_info_of(new_data)->Ok_0.version)->Some_0;
            let b = semver_parse(version_info_of(current)->Ok_0.version)->Some_0;
            update_needed(new_data, Some(current)) == Ok::<bool, TemplateError>(
                a.0 > b.0 || (a.0 == b.0 && a.1 > b.1) || (a.0 == b.0 && a.1 == b.1 && a.2 > b.2),
            )
        }),
{
}

/// Whether a text neither starts nor ends with white space.
pub open spec fn no_edge_space(s: Seq<char>) -> bool {
    s.len() > 0 ==> !is_white_space(s[0]) && !is_white_space(s.last())
}

proof fn lemma_trim_start_edge(s: Seq<char>)
    ensures
        trim_start(s).len() > 0 ==> !is_white_space(trim_start(s)[0]),
    decreases s.len(),
{
    if s.len() > 0 && is_white_space(s[0]) {
        lemma_trim_start_edge(s.drop_first());
    }
}

proof fn lemma_trim_end_prefix(s: Seq<char>)
    ensures
        trim_end(s).len() <= s.len(),
        trim_end(s) == s.subrange(0, trim_end(s).len() as int),
        trim_end(s).len() > 0 ==> !is_white_space(trim_end(s).last()),
    decreases s.len(),
{
    if s.len() > 0 && is_white_space(s.last()) {
        lemma_trim_end_prefix(s.drop_last());
        assert(s.drop_last().subrange(0, trim_end(s).len() as int) =~= s.subrange(
            0,
            trim_end(s).len() as int,
        ));
    } else {
        assert(s.subrange(0, s.len() as int) =~= s);
    }
}

/// Trimming leaves no white space at either end.
pub proof fn lemma_trimmed_edges(s: Seq<char>)
    ensures
        no_edge_space(trimmed(s)),
{
    lemma_trim_start_edge(s);
    lemma_trim_end_prefix(trim_start(s));
    let t = trim_start(s);
    if trimmed(s).len() > 0 {
        assert(trimmed(s)[0] == t.subrange(0, trimmed(s).len() as int)[0]);
    }
}

/// Every header field read is trimmed: none starts or ends with white space,
/// whatever line ends or padding the script uses.
pub proof fn lemma_header_fields_trimmed(data: Seq<u8>)
    ensures
        version_info_of(data) matches Ok(info) ==> {
            &&& no_edge_space(info.name)
            &&& no_edge_space(info.version)
            &&& no_edge_space(info.url)
        },
{
    let content = utf8_lossy(data);
    if let Some(g) = regex_group_one(NAME_PATTERN@, content) {
        lemma_trimmed_edges(g);
    }
    if let Some(g) = regex_group_one(VERSION_PATTERN@, content) {
        lemma_trimmed_edges(g);
    }
    if let Some(g) = regex_group_one(URL_PATTERN@, content) {
        lemma_trimmed_edges(g);
    }
}

/// The update is decided by the two versions alone, whatever the scripts'
/// other bytes: equal versions are never replaced; when the major, minor or
/// patch numbers differ, the copy is replaced exactly when the bundled
/// numbers are higher; otherwise the pre-release and build parts decide.
pub proof fn lemma_update_by_version(
    new_data: Seq<u8>,
    current: Seq<u8>,
    a: (u64, u64, u64, Seq<char>, Seq<char>),
    b: (u64, u64, u64, Seq<char>, Seq<char>),
)
    requires
        versions_compared(new_data, Some(current)) == Some((a, b)),
    ensures
        a == b ==> update_needed(new_data, Some(current)) == Ok::<bool, TemplateError>(false),
        (a.0, a.1, a.2) != (b.0, b.1, b.2) ==> update_needed(new_data, Some(current)) == Ok::<
            bool,
            TemplateError,
        >(a.0 > b.0 || (a.0 == b.0 && a.1 > b.1) || (a.0 == b.0 && a.1 == b.1 && a.2 > b.2)),
        (a.0, a.1, a.2) == (b.0, b.1, b.2) && a != b ==> update_needed(new_data, Some(current))
            == Ok::<bool, TemplateError>(semver_tail_gt(a.3, a.4, b.3, b.4)),
{
}

} // verus!
