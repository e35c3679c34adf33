//! The application configuration (`~/.koe/config.yaml`): its sections and their
//! defaults, hotkey resolution, file locations, and `${VAR}` substitution.
use vstd::prelude::*;
use crate::text::{chars_of, owned, str_eq, string_from_chars};

verus! {

// ─── Sections ───────────────────────────────────────────────────────

/// Speech-recognition settings.
#[derive(Debug, Clone, PartialEq, Eq)]
pub struct AsrSection {
    pub url: String,
    pub app_key: String,
    pub access_key: String,
    pub resource_id: String,
    pub connect_timeout_ms: u64,
    pub final_wait_timeout_ms: u64,
    pub enable_ddc: bool,
    pub enable_itn: bool,
    pub enable_punc: bool,
    pub enable_nonstream: bool,
}

/// Language-model correction settings. The sampling temperature and `top_p` are
/// floating-point settings and are kept by the application's configuration reader.
#[derive(Debug, Clone, PartialEq, Eq)]
pub struct LlmSection {
    pub enabled: bool,
    pub base_url: String,
    pub api_key: String,
    pub model: String,
    pub timeout_ms: u64,
    pub max_output_tokens: u32,
    pub dictionary_max_candidates: usize,
    pub system_prompt_path: String,
    pub user_prompt_path: String,
}

/// Sound feedback settings.
#[derive(Debug, Clone, PartialEq, Eq)]
pub struct FeedbackSection {
    pub start_sound: bool,
    pub stop_sound: bool,
    pub error_sound: bool,
}

/// User dictionary settings.
#[derive(Debug, Clone, PartialEq, Eq)]
pub struct DictionarySection {
    pub path: String,
}

/// Hotkey settings.
#[derive(Debug, Clone, PartialEq, Eq)]
pub struct HotkeySection {
    /// Trigger key for voice input: "fn", "left_option", "right_option", "left_command"
    /// or "right_command"; default "fn".
    pub trigger_key: String,
}

/// Resolved hotkey parameters for the native side.
#[derive(Clone, Copy, Debug, PartialEq, Eq)]
pub struct HotkeyParams {
    /// Primary key code
    pub key_code: u16,
    /// Alternative key code (e.g. 179 for the Globe key), 0 if none
    pub alt_key_code: u16,
    /// Modifier flag to check
    pub modifier_flag: u64,
}

/// The root configuration.
#[derive(Debug, Clone, PartialEq, Eq)]
pub struct Config {
    pub asr: AsrSection,
    pub llm: LlmSection,
    pub feedback: FeedbackSection,
    pub dictionary: DictionarySection,
    pub hotkey: HotkeySection,
}

/// The parameters of a trigger key; anything unrecognised means Fn/Globe.
pub open spec fn spec_resolve(key: Seq<char>) -> HotkeyParams {
    if key == "left_option"@ {
        HotkeyParams { key_code: 58, alt_key_code: 0, modifier_flag: 0x00080000 }
    } else if key == "right_option"@ {
        HotkeyParams { key_code: 61, alt_key_code: 0, modifier_flag: 0x00080000 }
    } else if key == "left_command"@ {
        HotkeyParams { key_code: 55, alt_key_code: 0, modifier_flag: 0x00100000 }
    } else if key == "right_command"@ {
        HotkeyParams { key_code: 54, alt_key_code: 0, modifier_flag: 0x00100000 }
    } else {
        HotkeyParams { key_code: 63, alt_key_code: 179, modifier_flag: 0x00800000 }
    }
}

impl HotkeySection {
    /// Resolves the trigger key into key codes and a modifier flag.
    pub fn resolve(&self) -> (p: HotkeyParams)
        ensures
            p == spec_resolve(self.trigger_key@),
    {
        let k = self.trigger_key.as_str();
        if str_eq(k, "left_option") {
            HotkeyParams { key_code: 58, alt_key_code: 0, modifier_flag: 0x00080000 }
        } else if str_eq(k, "right_option") {
            HotkeyParams { key_code: 61, alt_key_code: 0, modifier_flag: 0x00080000 }
        } else if str_eq(k, "left_command") {
            HotkeyParams { key_code: 55, alt_key_code: 0, modifier_flag: 0x00100000 }
        } else if str_eq(k, "right_command") {
            HotkeyParams { key_code: 54, alt_key_code: 0, modifier_flag: 0x00100000 }
        } else {
            HotkeyParams { key_code: 63, alt_key_code: 179, modifier_flag: 0x00800000 }
        }
    }
}

// ─── Defaults ───────────────────────────────────────────────────────

pub fn default_asr_url() -> (r: String)
    ensures
        r@ == "wss://openspeech.bytedance.com/api/v3/sauc/bigmodel_async"@,
{
    owned("wss://openspeech.bytedance.com/api/v3/sauc/bigmodel_async")
}

pub fn default_resource_id() -> (r: String)
    ensures
        r@ == "volc.seedasr.sauc.duration"@,
{
    owned("volc.seedasr.sauc.duration")
}

pub fn default_connect_timeout() -> (r: u64)
    ensures
        r == 3000,
{
    3000
}

pub fn default_final_wait_timeout() -> (r: u64)
    ensures
        r == 5000,
{
    5000
}

pub fn default_true() -> (r: bool)
    ensures
        r,
{
    true
}

pub fn default_llm_timeout() -> (r: u64)
    ensures
        r == 8000,
{
    8000
}

pub fn default_max_output_tokens() -> (r: u32)
    ensures
        r == 1024,
{
    1024
}

pub fn default_dictionary_max_candidates() -> (r: usize)
    ensures
        r == 0,
{
    0
}

pub fn default_dictionary_path() -> (r: String)
    ensures
        r@ == "dictionary.txt"@,
{
    owned("dictionary.txt")
}

pub fn default_system_prompt_path() -> (r: String)
    ensures
        r@ == "system_prompt.txt"@,
{
    owned("system_prompt.txt")
}

pub fn default_trigger_key() -> (r: String)
    ensures
        r@ == "fn"@,
{
    owned("fn")
}

pub fn default_user_prompt_path() -> (r: String)
    ensures
        r@ == "user_prompt.txt"@,
{
    owned("user_prompt.txt")
}

impl Default for AsrSection {
    fn default() -> (s: Self)
        ensures
            s.url@ == "wss://openspeech.bytedance.com/api/v3/sauc/bigmodel_async"@,
            s.app_key@ == Seq::<char>::empty(),
            s.access_key@ == Seq::<char>::empty(),
            s.resource_id@ == "volc.seedasr.sauc.duration"@,
            s.connect_timeout_ms == 3000,
            s.final_wait_timeout_ms == 5000,
            s.enable_ddc && s.enable_itn && s.enable_punc && s.enable_nonstream,
    {
        AsrSection {
            url: default_asr_url(),
            app_key: String::new(),
            access_key: String::new(),
            resource_id: default_resource_id(),
            connect_timeout_ms: default_connect_timeout(),
            final_wait_timeout_ms: default_final_wait_timeout(),
            enable_ddc: default_true(),
            enable_itn: default_true(),
            enable_punc: default_true(),
            enable_nonstream: default_true(),
        }
    }
}

impl Default for LlmSection {
    fn default() -> (s: Self)
        ensures
            s.enabled,
            s.base_url@ == Seq::<char>::empty(),
            s.api_key@ == Seq::<char>::empty(),
            s.model@ == Seq::<char>::empty(),
            s.timeout_ms == 8000,
            s.max_output_tokens == 1024,
            s.dictionary_max_candidates == 0,
            s.system_prompt_path@ == "system_prompt.txt"@,
            s.user_prompt_path@ == "user_prompt.txt"@,
    {
        LlmSection {
            enabled: default_true(),
            base_url: String::new(),
            api_key: String::new(),
            model: String::new(),
            timeout_ms: default_llm_timeout(),
            max_output_tokens: default_max_output_tokens(),
            dictionary_max_candidates: default_dictionary_max_candidates(),
            system_prompt_path: default_system_prompt_path(),
            user_prompt_path: default_user_prompt_path(),
        }
    }
}

impl Default for FeedbackSection {
    fn default() -> (s: Self)
        ensures
            s.start_sound && s.stop_sound && s.error_sound,
    {
        FeedbackSection { start_sound: default_true(), stop_sound: default_true(), error_sound: default_true() }
    }
}

impl Default for DictionarySection {
    fn default() -> (s: Self)
        ensures
            s.path@ == "dictionary.txt"@,
    {
        DictionarySection { path: default_dictionary_path() }
    }
}

impl Default for HotkeySection {
    fn default() -> (s: Self)
        ensures
            s.trigger_key@ == "fn"@,
    {
        HotkeySection { trigger_key: default_trigger_key() }
    }
}

impl Default for Config {
    fn default() -> (c: Self)
        ensures
            c.asr.url@ == "wss://openspeech.bytedance.com/api/v3/sauc/bigmodel_async"@,
            c.asr.resource_id@ == "volc.seedasr.sauc.duration"@,
            c.asr.connect_timeout_ms == 3000,
            c.asr.final_wait_timeout_ms == 5000,
            c.llm.enabled,
            c.llm.timeout_ms == 8000,
            c.llm.max_output_tokens == 1024,
            c.llm.dictionary_max_candidates == 0,
            c.llm.system_prompt_path@ == "system_prompt.txt"@,
            c.llm.user_prompt_path@ == "user_prompt.txt"@,
            c.feedback.start_sound && c.feedback.stop_sound && c.feedback.error_sound,
            c.dictionary.path@ == "dictionary.txt"@,
            c.hotkey.trigger_key@ == "fn"@,
    {
        Config {
            asr: AsrSection::default(),
            llm: LlmSection::default(),
            feedback: FeedbackSection::default(),
            dictionary: DictionarySection::default(),
            hotkey: HotkeySection::default(),
        }
    }
}

// ─── Config directory and paths ──────────────────────────────────

/// What `Path::new(p).is_absolute()` gives: whether the path is independent of the
/// current directory, under the path rules of the platform the crate is built for (on
/// Unix it starts with `/`; on Windows it has a prefix such as `C:` or `\\server\share`
/// followed by a root).
pub uninterp spec fn path_absolute(p: Seq<char>) -> bool;

/// What `Path::new(base).join(p)` gives, as text, under the path rules of the platform the
/// crate is built for.
pub uninterp spec fn path_joined(base: Seq<char>, p: Seq<char>) -> Seq<char>;

/// Whether a path is absolute.
/// Trusted: `std::path::Path::is_absolute`, a function of the text on a given platform
/// (`path_absolute`).
#[verifier::external_body]
pub(crate) fn path_is_absolute(p: &str) -> (r: bool)
    ensures
        r == path_absolute(p@),
{
    std::path::Path::new(p).is_absolute()
}

/// Joins a path onto a base path.
/// Trusted: `std::path::Path::join`, a function of the two texts on a given platform
/// (`path_joined`); as its documentation says, an absolute path replaces the base. The
/// joined path is made of the two texts and separators, so it is read back as text
/// without loss.
#[verifier::external_body]
pub(crate) fn join_paths(base: &str, p: &str) -> (r: String)
    ensures
        r@ == path_joined(base@, p@),
        path_absolute(p@) ==> r@ == p@,
{
    std::path::Path::new(base).join(p).to_string_lossy().into_owned()
}

/// The home directory, or `/tmp` when `HOME` is unset.
pub open spec fn home_or_tmp(home: Option<Seq<char>>) -> Seq<char> {
    match home {
        Some(h) => h,
        None => "/tmp"@,
    }
}

/// `~/.koe/`, for the given value of `HOME`.
pub open spec fn spec_config_dir(home: Option<Seq<char>>) -> Seq<char> {
    path_joined(home_or_tmp(home), ".koe"@)
}

/// The model of optional text.
pub open spec fn opt_text(o: Option<&str>) -> Option<Seq<char>> {
    match o {
        Some(s) => Some(s@),
        None => None,
    }
}

/// Returns `~/.koe/`; `home` is the value of `HOME`, `None` when it is unset.
pub fn config_dir(home: Option<&str>) -> (r: String)
    ensures
        r@ == spec_config_dir(opt_text(home)),
{
    match home {
        Some(h) => join_paths(h, ".koe"),
        None => join_paths("/tmp", ".koe"),
    }
}

/// Returns `~/.koe/config.yaml`.
pub fn config_path(home: Option<&str>) -> (r: String)
    ensures
        r@ == path_joined(spec_config_dir(opt_text(home)), "config.yaml"@),
{
    let dir = config_dir(home);
    join_paths(dir.as_str(), "config.yaml")
}

/// A path relative to the config directory (an absolute path stays as it is).
pub open spec fn spec_resolve_path(home: Option<Seq<char>>, p: Seq<char>) -> Seq<char> {
    if path_absolute(p) {
        p
    } else {
        path_joined(spec_config_dir(home), p)
    }
}

/// Resolves a path relative to the config directory.
pub fn resolve_path(home: Option<&str>, p: &str) -> (r: String)
    ensures
        r@ == spec_resolve_path(opt_text(home), p@),
{
    if path_is_absolute(p) {
        return owned(p);
    }
    let dir = config_dir(home);
    join_paths(dir.as_str(), p)
}

/// Every relative path lies in the config directory, and an absolute one stays as it
/// was: resolving is joining onto the config directory.
pub proof fn law_relative_paths_under_config_dir(home: Option<Seq<char>>, p: Seq<char>)
    ensures
        path_absolute(p) ==> spec_resolve_path(home, p) == p,
        !path_absolute(p) ==> spec_resolve_path(home, p) == path_joined(spec_config_dir(home), p),
{
}

/// Resolves the dictionary path.
pub fn resolve_dictionary_path(config: &Config, home: Option<&str>) -> (r: String)
    ensures
        r@ == spec_resolve_path(opt_text(home), config.dictionary.path@),
{
    resolve_path(home, config.dictionary.path.as_str())
}

/// Resolves the system prompt path.
pub fn resolve_system_prompt_path(config: &Config, home: Option<&str>) -> (r: String)
    ensures
        r@ == spec_resolve_path(opt_text(home), config.llm.system_prompt_path@),
{
    resolve_path(home, config.llm.system_prompt_path.as_str())
}

/// Resolves the user prompt path.
pub fn resolve_user_prompt_path(config: &Config, home: Option<&str>) -> (r: String)
    ensures
        r@ == spec_resolve_path(opt_text(home), config.llm.user_prompt_path@),
{
    resolve_path(home, config.llm.user_prompt_path.as_str())
}

// ─── Environment variable substitution ───────────────────────────
//
// `${NAME}` patterns are replaced one at a time, first to last and again inside the
// values substituted, until none is left. Reading a variable is the environment's
// business: the caller looks up each name this library finds and hands the value back.

/// Whether `${` starts at `i`.
pub open spec fn opens_at(s: Seq<char>, i: int) -> bool {
    0 <= i && i + 1 < s.len() && s[i] == '$' && s[i + 1] == '{'
}

/// The first `${` at or after `i`.
pub open spec fn find_open(s: Seq<char>, i: int) -> Option<int>
    decreases s.len() - i,
{
    if i < 0 || i + 1 >= s.len() {
        None
    } else if opens_at(s, i) {
        Some(i)
    } else {
        find_open(s, i + 1)
    }
}

/// The first `}` at or after `i`.
pub open spec fn find_close(s: Seq<char>, i: int) -> Option<int>
    decreases s.len() - i,
{
    if i < 0 || i >= s.len() {
        None
    } else if s[i] == '}' {
        Some(i)
    } else {
        find_close(s, i + 1)
    }
}

/// Where the first `${NAME}` of a text lies: the position of `${` and that of the first
/// `}` after it; `None` when there is no `${` followed later by a `}`.
pub open spec fn placeholder(s: Seq<char>) -> Option<(int, int)> {
    match find_open(s, 0) {
        None => None,
        Some(start) => match find_close(s, start + 2) {
            None => None,
            Some(end) => Some((start, end)),
        },
    }
}

/// The name in the first `${NAME}` of a text.
pub open spec fn placeholder_name_of(s: Seq<char>) -> Option<Seq<char>> {
    match placeholder(s) {
        None => None,
        Some((start, end)) => Some(s.subrange(start + 2, end)),
    }
}

/// The text with its first `${NAME}` replaced by `value`; unchanged when it has none.
pub open spec fn substituted_first(s: Seq<char>, value: Seq<char>) -> Seq<char> {
    match placeholder(s) {
        None => s,
        Some((start, end)) => s.subrange(0, start) + value + s.subrange(end + 1, s.len() as int),
    }
}

/// One substitution in an environment (a variable's value for each name, empty text for
/// unset ones): the first `${NAME}` replaced by the value of `NAME`; `None` when there is
/// none left.
pub open spec fn subst_step(s: Seq<char>, env: spec_fn(Seq<char>) -> Seq<char>) -> Option<Seq<char>> {
    match placeholder_name_of(s) {
        None => None,
        Some(name) => Some(substituted_first(s, env(name))),
    }
}

/// The text after at most `n` substitutions (fewer when none is left).
pub open spec fn subst_iter(s: Seq<char>, env: spec_fn(Seq<char>) -> Seq<char>, n: nat) -> Seq<char>
    decreases n,
{
    if n == 0 {
        s
    } else {
        match subst_step(s, env) {
            None => s,
            Some(t) => subst_iter(t, env, (n - 1) as nat),
        }
    }
}

/// Text with no substitution left to make.
pub open spec fn subst_done(s: Seq<char>) -> bool {
    placeholder(s) is None
}

proof fn lemma_iter_stable(s: Seq<char>, env: spec_fn(Seq<char>) -> Seq<char>, n: nat, m: nat)
    requires
        subst_done(subst_iter(s, env, n)),
        n <= m,
    ensures
        subst_iter(s, env, m) == subst_iter(s, env, n),
    decreases n,
{
    if n == 0 {
        if m > 0 {
            assert(subst_step(s, env) is None);
        }
    } else {
        match subst_step(s, env) {
            None => {},
            Some(t) => {
                lemma_iter_stable(t, env, (n - 1) as nat, (m - 1) as nat);
            },
        }
    }
}

/// Substitution has one outcome: any two texts that it reaches and that have nothing
/// left to substitute are the same.
pub proof fn law_substitution_outcome_unique(s: Seq<char>, env: spec_fn(Seq<char>) -> Seq<char>, n1: nat, n2: nat)
    requires
        subst_done(subst_iter(s, env, n1)),
        subst_done(subst_iter(s, env, n2)),
    ensures
        subst_iter(s, env, n1) == subst_iter(s, env, n2),
{
    if n1 <= n2 {
        lemma_iter_stable(s, env, n1, n2);
    } else {
        lemma_iter_stable(s, env, n2, n1);
    }
}

/// A step of substitution is finding the first name and replacing its pattern by the
/// name's value: `placeholder_name` and `substitute_first` together make `subst_step`,
/// and a text with no name left is done.
pub proof fn law_step_is_name_then_replace(s: Seq<char>, env: spec_fn(Seq<char>) -> Seq<char>)
    ensures
        placeholder_name_of(s) matches Some(name) ==> subst_step(s, env) == Some(substituted_first(s, env(name))),
        placeholder_name_of(s) is None <==> subst_done(s),
        subst_done(s) ==> subst_iter(s, env, 1) == s,
{
}

fn find_open_exec(s: &Vec<char>) -> (r: Option<usize>)
    ensures
        match r {
            Some(i) => find_open(s@, 0) == Some(i as int) && i + 1 < s@.len(),
            None => find_open(s@, 0) is None,
        },
{
    let n = s.len();
    let mut i: usize = 0;
    while n >= 2 && i < n - 1
        invariant
            n == s@.len(),
            find_open(s@, 0) == find_open(s@, i as int),
        decreases n - i,
    {
        if s[i] == '$' && s[i + 1] == '{' {
            return Some(i);
        }
        i = i + 1;
    }
    None
}

fn find_close_exec(s: &Vec<char>, from: usize) -> (r: Option<usize>)
    ensures
        match r {
            Some(i) => find_close(s@, from as int) == Some(i as int) && from <= i < s@.len(),
            None => find_close(s@, from as int) is None,
        },
{
    let n = s.len();
    let mut i: usize = from;
    while i < n
        invariant
            n == s@.len(),
            from <= i,
            find_close(s@, from as int) == find_close(s@, i as int),
        decreases n - i,
    {
        if s[i] == '}' {
            return Some(i);
        }
        i = i + 1;
    }
    None
}

fn sub_vec(s: &Vec<char>, from: usize, to: usize) -> (r: Vec<char>)
    requires
        from <= to <= s@.len(),
    ensures
        r@ == s@.subrange(from as int, to as int),
{
    let mut r: Vec<char> = Vec::new();
    let mut i: usize = from;
    while i < to
        invariant
            from <= i <= to,
            to <= s@.len(),
            r@ == s@.subrange(from as int, i as int),
        decreases to - i,
    {
        r.push(s[i]);
        assert(s@.subrange(from as int, i + 1) =~= s@.subrange(from as int, i as int).push(s@[i as int]));
        i = i + 1;
    }
    r
}

fn append_vec(a: &mut Vec<char>, b: &Vec<char>)
    ensures
        final(a)@ == old(a)@ + b@,
{
    let ghost a0 = a@;
    let mut i: usize = 0;
    while i < b.len()
        invariant
            i <= b@.len(),
            a@ == a0 + b@.subrange(0, i as int),
        decreases b@.len() - i,
    {
        a.push(b[i]);
        assert(b@.subrange(0, i + 1) =~= b@.subrange(0, i as int).push(b@[i as int]));
        i = i + 1;
    }
    assert(b@.subrange(0, b@.len() as int) =~= b@);
}

/// The name in the first `${NAME}` of a text; `None` when there is no `${` followed later
/// by a `}`.
pub fn placeholder_name(text: &str) -> (r: Option<String>)
    ensures
        match r {
            Some(n) => placeholder_name_of(text@) == Some(n@),
            None => placeholder_name_of(text@) is None,
        },
{
    let cs = chars_of(text);
    let start = match find_open_exec(&cs) {
        Some(p) => p,
        None => return None,
    };
    assert(start + 2 <= cs@.len());
    let end = match find_close_exec(&cs, start + 2) {
        Some(p) => p,
        None => return None,
    };
    let name = sub_vec(&cs, start + 2, end);
    Some(string_from_chars(name.as_slice()))
}

/// Replaces the first `${NAME}` of a text by `value`; a text without one is returned as
/// it is.
pub fn substitute_first(text: &str, value: &str) -> (r: String)
    ensures
        r@ == substituted_first(text@, value@),
{
    let cs = chars_of(text);
    let start = match find_open_exec(&cs) {
        Some(p) => p,
        None => return owned(text),
    };
    assert(start + 2 <= cs@.len());
    let end = match find_close_exec(&cs, start + 2) {
        Some(p) => p,
        None => return owned(text),
    };
    let mut next = sub_vec(&cs, 0, start);
    let vs = chars_of(value);
    append_vec(&mut next, &vs);
    let len = cs.len();
    let tail = sub_vec(&cs, end + 1, len);
    append_vec(&mut next, &tail);
    string_from_chars(next.as_slice())
}

} // verus!
