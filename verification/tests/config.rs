use koe::config::{
    config_dir, config_path, default_asr_url, default_connect_timeout, default_dictionary_max_candidates,
    default_dictionary_path, default_final_wait_timeout, default_llm_timeout, default_max_output_tokens,
    default_resource_id, default_system_prompt_path, default_trigger_key, default_true, default_user_prompt_path,
    resolve_dictionary_path, resolve_path, resolve_system_prompt_path, resolve_user_prompt_path,
    placeholder_name, substitute_first, Config, HotkeyParams, HotkeySection,
};

fn key(k: &str) -> HotkeyParams {
    HotkeySection { trigger_key: k.to_string() }.resolve()
}

fn env(pairs: &[(&str, &str)]) -> Vec<(String, String)> {
    pairs.iter().map(|(k, v)| (k.to_string(), v.to_string())).collect()
}

/// Substitution as the application runs it, with `env` as the environment.
fn subst(input: &str, env: &[(String, String)]) -> String {
    let mut s = input.to_string();
    while let Some(name) = placeholder_name(&s) {
        let value = env.iter().find(|(k, _)| *k == name).map(|(_, v)| v.clone()).unwrap_or_default();
        s = substitute_first(&s, &value);
    }
    s
}

#[test]
fn hotkey_resolution() {
    assert_eq!(key("left_option"), HotkeyParams { key_code: 58, alt_key_code: 0, modifier_flag: 0x00080000 });
    assert_eq!(key("right_option"), HotkeyParams { key_code: 61, alt_key_code: 0, modifier_flag: 0x00080000 });
    assert_eq!(key("left_command"), HotkeyParams { key_code: 55, alt_key_code: 0, modifier_flag: 0x00100000 });
    assert_eq!(key("right_command"), HotkeyParams { key_code: 54, alt_key_code: 0, modifier_flag: 0x00100000 });
    assert_eq!(key("fn"), HotkeyParams { key_code: 63, alt_key_code: 179, modifier_flag: 0x00800000 });
    assert_eq!(key("caps_lock"), key("fn"));
    assert_eq!(HotkeySection::default().resolve(), key("fn"));
}

#[test]
fn defaults() {
    assert_eq!(default_asr_url(), "wss://openspeech.bytedance.com/api/v3/sauc/bigmodel_async");
    assert_eq!(default_resource_id(), "volc.seedasr.sauc.duration");
    assert_eq!(default_connect_timeout(), 3000);
    assert_eq!(default_final_wait_timeout(), 5000);
    assert!(default_true());
    assert_eq!(default_llm_timeout(), 8000);
    assert_eq!(default_max_output_tokens(), 1024);
    assert_eq!(default_dictionary_max_candidates(), 0);
    assert_eq!(default_dictionary_path(), "dictionary.txt");
    assert_eq!(default_system_prompt_path(), "system_prompt.txt");
    assert_eq!(default_user_prompt_path(), "user_prompt.txt");
    assert_eq!(default_trigger_key(), "fn");
    let c = Config::default();
    assert_eq!(c.asr.url, default_asr_url());
    assert!(c.asr.enable_nonstream && c.llm.enabled && c.feedback.error_sound);
    assert_eq!(c.dictionary.path, "dictionary.txt");
    assert_eq!(c.hotkey.trigger_key, "fn");
}

#[test]
fn paths() {
    assert_eq!(config_dir(Some("/Users/me")), "/Users/me/.koe");
    assert_eq!(config_dir(Some("/")), "/.koe");
    assert_eq!(config_dir(None), "/tmp/.koe");
    assert_eq!(config_path(Some("/home/u")), "/home/u/.koe/config.yaml");
    assert_eq!(resolve_path(Some("/home/u"), "dictionary.txt"), "/home/u/.koe/dictionary.txt");
    assert_eq!(resolve_path(Some("/home/u"), "/etc/koe/dict.txt"), "/etc/koe/dict.txt");
    assert_eq!(resolve_path(Some("/home/u"), "sub/p.txt"), "/home/u/.koe/sub/p.txt");
    let c = Config::default();
    assert_eq!(resolve_dictionary_path(&c, Some("/h")), "/h/.koe/dictionary.txt");
    assert_eq!(resolve_system_prompt_path(&c, Some("/h")), "/h/.koe/system_prompt.txt");
    assert_eq!(resolve_user_prompt_path(&c, Some("/h")), "/h/.koe/user_prompt.txt");
    for (home, p) in [("/h", "x"), ("/h/", "y"), ("rel", "/abs"), ("", ""), ("/a/b", "c/d"), ("C:\\Users\\me", "C:\\dict.txt")] {
        let dir = std::path::Path::new(home).join(".koe");
        assert_eq!(config_dir(Some(home)), dir.to_str().unwrap());
        assert_eq!(config_path(Some(home)), dir.join("config.yaml").to_str().unwrap());
        let expected = if std::path::Path::new(p).is_absolute() { std::path::PathBuf::from(p) } else { dir.join(p) };
        assert_eq!(resolve_path(Some(home), p), expected.to_str().unwrap());
    }
}

#[test]
fn env_substitution() {
    let e = env(&[("LLM_API_KEY", "sk-123"), ("A", "${B}"), ("B", "z")]);
    assert_eq!(subst("api_key: ${LLM_API_KEY}", &e), "api_key: sk-123");
    assert_eq!(subst("${MISSING}x", &e), "x");
    assert_eq!(subst("a ${A} b", &e), "a z b");
    assert_eq!(subst("no vars", &e), "no vars");
    assert_eq!(subst("open ${A", &e), "open ${A");
    assert_eq!(subst("${LLM_API_KEY}${B}", &e), "sk-123z");
    assert_eq!(subst("$${B}", &e), "$z");
    assert_eq!(subst("} ${B}", &e), "} z");
    assert_eq!(subst("${}", &e), "");
    assert_eq!(subst("中${B}文", &e), "中z文");
}

#[test]
fn placeholders() {
    assert_eq!(placeholder_name("a ${NAME} b ${X}"), Some("NAME".to_string()));
    assert_eq!(placeholder_name("${}"), Some(String::new()));
    assert_eq!(placeholder_name("$${中}"), Some("中".to_string()));
    assert_eq!(placeholder_name("open ${A"), None);
    assert_eq!(placeholder_name("} {A}"), None);
    assert_eq!(substitute_first("a ${NAME} b ${X}", "v"), "a v b ${X}");
    assert_eq!(substitute_first("${A}${B}", "${C}"), "${C}${B}");
    assert_eq!(substitute_first("none", "v"), "none");
    assert_eq!(substitute_first("open ${A", "v"), "open ${A");
}
