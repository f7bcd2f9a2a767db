use daedalusd::agent::prompt_sources::{extract_frontmatter_description, nonblank, tokenize, MemoryPaths};

#[test]
fn memory_paths_with_home_ignores_env() {
    let mp = MemoryPaths::with_home("/tmp/test-home");
    assert_eq!(mp.memory_md, "/tmp/test-home/.daedalus/MEMORY.md");
    assert_eq!(mp.user_md, "/tmp/test-home/.daedalus/USER.md");
    assert_eq!(mp.preferences, "/tmp/test-home/.daedalus/config/user-preferences.json");
    assert_eq!(mp.feedback, "/tmp/test-home/.daedalus/config/feedback-memory.json");
    assert_eq!(mp.project_context, "/tmp/test-home/.daedalus/config/project-context.json");
    assert_eq!(mp.authority_map, "/tmp/test-home/.daedalus/config/authority-map");
}

#[test]
fn tokenize_filters_short_and_stopwords() {
    let tokens = tokenize("The quick brown fox jumps over the lazy dog");
    assert!(tokens.contains(&"quick".to_string()));
    assert!(tokens.contains(&"brown".to_string()));
    assert!(tokens.contains(&"fox".to_string()));
    assert!(tokens.contains(&"jumps".to_string()));
    assert!(tokens.contains(&"lazy".to_string()));
    assert!(tokens.contains(&"dog".to_string()));
    assert!(!tokens.contains(&"the".to_string()));
    assert!(!tokens.contains(&"it".to_string()));
    assert!(!tokens.iter().any(|t| t.len() < 3));
}

#[test]
fn extract_description_present() {
    let md = "---\ntitle: Test\ndescription: Fix bugs in Rust\n---\n# Body";
    assert_eq!(extract_frontmatter_description(md), "Fix bugs in Rust");
}

#[test]
fn extract_description_absent() {
    let md = "# Just markdown\n\nNo frontmatter.";
    assert_eq!(extract_frontmatter_description(md), "");
}

#[test]
fn tokenize_keeps_order_and_lowercases() {
    let tokens = tokenize("Fix BUGS, in Rust-code!");
    assert_eq!(tokens, vec!["fix".to_string(), "bugs".to_string(), "rust".to_string(), "code".to_string()]);
}

#[test]
fn tokenize_counts_bytes_not_chars() {
    // two characters of three bytes each are six bytes long
    let tokens = tokenize("日本 ok");
    assert_eq!(tokens, vec!["日本".to_string()]);
}

#[test]
fn description_outside_front_matter_is_ignored() {
    let md = "# Title\ndescription: not front matter\n";
    assert_eq!(extract_frontmatter_description(md), "");
    let md2 = "---\ntitle: x\n---\ndescription: after the fence\n";
    assert_eq!(extract_frontmatter_description(md2), "");
}

#[test]
fn description_value_is_trimmed() {
    let md = "---\r\ndescription:    spaced out   \r\n---\r\n";
    assert_eq!(extract_frontmatter_description(md), "spaced out");
}

#[test]
fn blank_content_counts_as_absent() {
    assert_eq!(nonblank("  \n\t ".to_string()), None);
    assert_eq!(nonblank(" x ".to_string()), Some(" x ".to_string()));
}
