use std::collections::hash_map::DefaultHasher;
use std::hash::{Hash, Hasher};

use ircc_ai::chunking::{best_chunks, split_into_chunks};
use ircc_ai::conversation::{output_to_text, ToolOutput};
use ircc_ai::data::RelevantChunk;
use ircc_ai::fuzzy::{contains, edit_distance, search_path};
use ircc_ai::hash::calculate_hash;
use ircc_ai::ranking::best_k;
use ircc_ai::text::{chars_of, join};

fn chars(s: &str) -> Vec<char> {
    s.chars().collect()
}

#[test]
fn chunks_cover_the_text_once() {
    let text: String = (0..1000).map(|i| char::from(b'a' + (i % 26) as u8)).collect();
    let chunks = split_into_chunks(&text, 300, 400);
    let sizes: Vec<usize> = chunks.iter().map(|c| c.chars().count()).collect();
    assert_eq!(sizes, vec![400, 400, 200]);
    assert_eq!(chunks.concat(), text);
}

#[test]
fn chunks_of_multibyte_text() {
    let text = "é".repeat(450);
    let chunks = split_into_chunks(&text, 300, 400);
    assert_eq!(chunks.len(), 2);
    assert_eq!(chunks[0].chars().count(), 400);
    assert_eq!(chunks[1].chars().count(), 50);
    assert_eq!(chunks.concat(), text);
}

#[test]
fn empty_text_has_no_chunks() {
    assert!(split_into_chunks("", 300, 400).is_empty());
}

#[test]
fn short_text_is_one_chunk() {
    let chunks = split_into_chunks("short", 300, 400);
    assert_eq!(chunks, vec!["short".to_string()]);
}

#[test]
fn exact_multiple_has_full_chunks() {
    let text = "x".repeat(800);
    let chunks = split_into_chunks(&text, 300, 400);
    assert_eq!(chunks.len(), 2);
    assert!(chunks.iter().all(|c| c.len() == 400));
}

#[test]
fn best_k_picks_smallest_keys_in_order() {
    assert_eq!(best_k(&vec![5, 1, 3, 1, 9], 3), vec![1, 3, 2]);
    assert_eq!(best_k(&vec![2, 2, 2], 2), vec![0, 1]);
    assert_eq!(best_k(&vec![4, 3], 5), vec![1, 0]);
    assert!(best_k(&vec![4, 3], 0).is_empty());
    assert!(best_k(&Vec::new(), 2).is_empty());
}

#[test]
fn best_chunks_keep_highest_scores() {
    let chunks = vec!["a".to_string(), "b".to_string(), "c".to_string(), "d".to_string()];
    let scores = vec![10, 40, 40, 20];
    let r = best_chunks("f.md", &chunks, &scores, 2);
    let contents: Vec<&str> = r.iter().map(|c| c.content.as_str()).collect();
    assert_eq!(contents, vec!["b", "c"]);
    assert!(r.iter().all(|c| c.path == "f.md"));
}

#[test]
fn edit_distance_values() {
    assert_eq!(edit_distance(&chars("kitten"), &chars("sitting")), 3);
    assert_eq!(edit_distance(&chars(""), &chars("abc")), 3);
    assert_eq!(edit_distance(&chars("abc"), &chars("")), 3);
    assert_eq!(edit_distance(&chars("same"), &chars("same")), 0);
    assert_eq!(edit_distance(&chars("flaw"), &chars("lawn")), 2);
}

#[test]
fn contains_finds_pieces() {
    assert!(contains(&chars("en/visa/apply.md"), &chars("visa")));
    assert!(contains(&chars("abc"), &chars("")));
    assert!(!contains(&chars("abc"), &chars("abd")));
    assert!(!contains(&chars("ab"), &chars("abc")));
}

#[test]
fn path_search_ranks_exact_match_first() {
    let paths = vec![
        "en/visa/apply.md".to_string(),
        "en/visa.md".to_string(),
        "en/visa".to_string(),
        "fr/visa.md".to_string(),
    ];
    let r = search_path("en/visa", &paths, 1);
    assert_eq!(r, vec!["en/visa".to_string()]);
    let r = search_path("en/visa", &paths, 4);
    assert_eq!(r, vec!["en/visa", "en/visa.md", "en/visa/apply.md", "fr/visa.md"]);
}

#[test]
fn path_search_prefers_containing_paths() {
    let paths = vec!["visas".to_string(), "xyz".to_string(), "a/b/c/d/e/visa/long.md".to_string()];
    let r = search_path("visa", &paths, 3);
    assert_eq!(r, vec!["visas", "a/b/c/d/e/visa/long.md", "xyz"]);
}

#[test]
fn path_search_with_no_limit_is_empty() {
    let paths = vec!["a".to_string()];
    assert!(search_path("a", &paths, 0).is_empty());
    assert!(search_path("a", &Vec::new(), 3).is_empty());
}

#[test]
fn hash_matches_std_str_hash() {
    for s in ["", "en/visa.md", "documents/é.md"] {
        let mut h = DefaultHasher::new();
        s.hash(&mut h);
        assert_eq!(calculate_hash(s), h.finish());
    }
}

#[test]
fn same_path_gives_same_key() {
    let a = String::from("en/immigration/apply.md");
    let b = "en/immigration/apply.md".to_string();
    assert_eq!(calculate_hash(&a), calculate_hash(&b));
    assert_ne!(calculate_hash("en/a.md"), calculate_hash("en/b.md"));
}

#[test]
fn output_text_formats() {
    let out = ToolOutput::Paths(vec!["a.md".to_string(), "b.md".to_string()]);
    assert_eq!(output_to_text(&out), "a.md\nb.md");
    let out = ToolOutput::Chunks(vec![
        RelevantChunk { path: "a.md".to_string(), content: "one ".to_string() },
        RelevantChunk { path: "b.md".to_string(), content: "\ttwo".to_string() },
    ]);
    assert_eq!(
        output_to_text(&out),
        "##Relevant file chunk##\nPath argument:a.md\nRelevant content: one\n\n##Relevant file chunk##\nPath argument:b.md\nRelevant content: two"
    );
    assert_eq!(output_to_text(&ToolOutput::Paths(Vec::new())), "");
}

#[test]
fn text_helpers() {
    assert_eq!(chars_of("héllo"), vec!['h', 'é', 'l', 'l', 'o']);
    assert_eq!(join(&vec!["a".to_string(), "b".to_string(), "c".to_string()], ", "), "a, b, c");
    assert_eq!(join(&Vec::new(), ", "), "");
}
