use forge_core::completion::{chars_of, contains, keeps_entry, query_matches, starts_with, Completion};

fn corpus() -> Completion {
    Completion::new(
        vec!["/ASK", "/EDIT", "/QUIT", "@abc/pqd.rs", "@pqd"]
            .into_iter()
            .map(String::from)
            .collect(),
    )
}

fn strings(items: &[&str]) -> Vec<String> {
    items.iter().map(|s| s.to_string()).collect()
}

#[test]
fn test_completion() {
    let mut completion = corpus();
    let actual = completion.get_suggestions("").unwrap();
    let expected: Vec<&str> = Vec::new();
    assert_eq!(actual, expected);

    let actual = completion.get_suggestions("/").unwrap();
    let expected = vec!["/ASK", "/EDIT", "/QUIT"];
    assert_eq!(actual, expected);

    let actual = completion.get_suggestions("/a").unwrap();
    let expected = vec!["/ASK"];
    assert_eq!(actual, expected);

    let actual = completion.get_suggestions("@abc").unwrap();
    let expected = vec!["@abc/pqd.rs"];
    assert_eq!(actual, expected);

    let actual = completion.get_suggestions("@pqd.rs").unwrap();
    let expected = vec!["@abc/pqd.rs"];
    assert_eq!(actual, expected);

    let actual = completion.get_suggestions("@").unwrap();
    let expected: Vec<String> = vec![];
    assert_eq!(actual, expected);
}

#[test]
fn corpus_is_stored_verbatim() {
    let completion = corpus();
    assert_eq!(
        completion.corpus(),
        &strings(&["/ASK", "/EDIT", "/QUIT", "@abc/pqd.rs", "@pqd"])
    );
}

#[test]
fn empty_input_suggests_nothing() {
    let mut completion = corpus();
    assert_eq!(completion.get_suggestions("").unwrap(), Vec::<String>::new());
}

#[test]
fn whitespace_only_input_suggests_nothing() {
    let mut completion = corpus();
    assert_eq!(completion.get_suggestions("   \t ").unwrap(), Vec::<String>::new());
}

#[test]
fn lone_at_sign_suggests_nothing() {
    let mut completion = corpus();
    assert_eq!(completion.get_suggestions("@").unwrap(), Vec::<String>::new());
}

#[test]
fn plain_text_suggests_nothing() {
    let mut completion = corpus();
    assert_eq!(completion.get_suggestions("ask").unwrap(), Vec::<String>::new());
    assert_eq!(completion.get_suggestions("pqd").unwrap(), Vec::<String>::new());
}

#[test]
fn outer_whitespace_is_ignored() {
    let mut completion = corpus();
    assert_eq!(completion.get_suggestions("  /as").unwrap(), strings(&["/ASK"]));
    assert_eq!(completion.get_suggestions("/as \n").unwrap(), strings(&["/ASK"]));
    assert_eq!(completion.get_suggestions(" @abc ").unwrap(), strings(&["@abc/pqd.rs"]));
}

#[test]
fn case_of_the_input_is_ignored() {
    let mut completion = corpus();
    let typed = completion.get_suggestions("/Ed").unwrap();
    let upper = completion.get_suggestions("/ED").unwrap();
    let lower = completion.get_suggestions("/ed").unwrap();
    assert_eq!(typed, strings(&["/EDIT"]));
    assert_eq!(upper, typed);
    assert_eq!(lower, typed);
    assert_eq!(completion.get_suggestions("@PQD").unwrap(), strings(&["@abc/pqd.rs", "@pqd"]));
}

#[test]
fn entries_come_back_in_their_own_case() {
    let mut completion = Completion::new(strings(&["/Ask", "@Src/Main.rs"]));
    assert_eq!(completion.get_suggestions("/a").unwrap(), strings(&["/Ask"]));
    assert_eq!(completion.get_suggestions("@main").unwrap(), strings(&["@Src/Main.rs"]));
}

#[test]
fn slash_query_keeps_exactly_the_prefixed_entries() {
    let mut completion = Completion::new(strings(&["/ask", "x/ask", "/as", "/a", "/", "ask"]));
    assert_eq!(completion.get_suggestions("/as").unwrap(), strings(&["/ask", "/as"]));
    assert_eq!(completion.get_suggestions("/").unwrap(), strings(&["/ask", "/as", "/a", "/"]));
    assert_eq!(completion.get_suggestions("/askx").unwrap(), Vec::<String>::new());
}

#[test]
fn slash_query_with_at_sign_stays_a_prefix_query() {
    let mut completion = Completion::new(strings(&["/a@b", "@b", "b"]));
    assert_eq!(completion.get_suggestions("/a@b").unwrap(), strings(&["/a@b"]));
    assert_eq!(completion.get_suggestions("/a@").unwrap(), strings(&["/a@b"]));
}

#[test]
fn at_query_keeps_exactly_the_entries_that_contain_the_tail() {
    let mut completion = Completion::new(strings(&["@abc/pqd.rs", "@pqd", "pqd", "/PQD", "pq"]));
    assert_eq!(
        completion.get_suggestions("@pqd").unwrap(),
        strings(&["@abc/pqd.rs", "@pqd", "pqd", "/PQD"])
    );
    assert_eq!(completion.get_suggestions("@rs").unwrap(), strings(&["@abc/pqd.rs"]));
    assert_eq!(completion.get_suggestions("@zzz").unwrap(), Vec::<String>::new());
}

#[test]
fn text_before_the_at_sign_is_ignored() {
    let mut completion = corpus();
    assert_eq!(completion.get_suggestions("open @abc").unwrap(), strings(&["@abc/pqd.rs"]));
}

#[test]
fn only_the_part_after_the_last_at_sign_counts() {
    let mut completion = corpus();
    assert_eq!(completion.get_suggestions("@abc @pqd").unwrap(), strings(&["@abc/pqd.rs", "@pqd"]));
    assert_eq!(completion.get_suggestions("@zzz@abc").unwrap(), strings(&["@abc/pqd.rs"]));
    assert_eq!(completion.get_suggestions("@abc@").unwrap(), Vec::<String>::new());
}

#[test]
fn duplicates_and_order_are_kept() {
    let mut completion = Completion::new(strings(&["/b", "/a", "/b", "@x", "/B"]));
    assert_eq!(completion.get_suggestions("/b").unwrap(), strings(&["/b", "/b", "/B"]));
    assert_eq!(completion.get_suggestions("/").unwrap(), strings(&["/b", "/a", "/b", "/B"]));
}

#[test]
fn suggestions_leave_the_corpus_unchanged() {
    let mut completion = corpus();
    let before = completion.corpus().clone();
    completion.get_suggestions("/a").unwrap();
    completion.get_completion("/a", Some("/ASK".to_string())).unwrap();
    assert_eq!(completion.corpus(), &before);
}

#[test]
fn empty_corpus_suggests_nothing() {
    let mut completion = Completion::new(Vec::new());
    assert_eq!(completion.get_suggestions("/").unwrap(), Vec::<String>::new());
    assert_eq!(completion.get_suggestions("@a").unwrap(), Vec::<String>::new());
}

#[test]
fn select_takes_the_query_as_it_is() {
    let completion = corpus();
    assert_eq!(completion.select("/a"), strings(&["/ASK"]));
    assert_eq!(completion.select("/A"), Vec::<String>::new());
    assert_eq!(completion.select(" /a"), Vec::<String>::new());
    assert_eq!(completion.select(""), Vec::<String>::new());
}

#[test]
fn completion_appends_the_highlighted_suggestion() {
    let mut completion = corpus();
    assert_eq!(
        completion.get_completion("/a", Some("/ASK".to_string())).unwrap(),
        Some("/a/ASK".to_string())
    );
    assert_eq!(completion.get_completion("/a", None).unwrap(), Some("/a".to_string()));
    assert_eq!(completion.get_completion("", None).unwrap(), Some(String::new()));
    assert_eq!(
        completion.get_completion("", Some("@pqd".to_string())).unwrap(),
        Some("@pqd".to_string())
    );
}

#[test]
fn query_matches_follows_the_sigil() {
    assert!(query_matches("/a", "/ask"));
    assert!(!query_matches("/a", "x/ask"));
    assert!(!query_matches("/ask!", "/ask"));
    assert!(query_matches("@pqd.rs", "@abc/pqd.rs"));
    assert!(!query_matches("@pqd.rs", "@pqd"));
    assert!(!query_matches("@", "@pqd"));
    assert!(!query_matches("", "/ask"));
    assert!(!query_matches("ask", "/ask"));
    assert!(query_matches("x@y@pq", "@pqd"));
}

#[test]
fn chars_of_gives_every_character() {
    assert_eq!(chars_of(""), Vec::<char>::new());
    assert_eq!(chars_of("/a@"), vec!['/', 'a', '@']);
    assert_eq!(chars_of("é漢"), vec!['é', '漢']);
}

#[test]
fn prefix_and_substring_search() {
    let text = chars_of("@abc/pqd.rs");
    assert!(starts_with(&text, &chars_of("@abc")));
    assert!(starts_with(&text, &chars_of("")));
    assert!(starts_with(&text, &text));
    assert!(!starts_with(&text, &chars_of("abc")));
    assert!(!starts_with(&chars_of("@a"), &chars_of("@abc")));
    assert!(contains(&text, &chars_of("pqd.rs")));
    assert!(contains(&text, &chars_of("")));
    assert!(contains(&text, &chars_of("@")));
    assert!(contains(&text, &text));
    assert!(!contains(&text, &chars_of("pqd.rsx")));
    assert!(!contains(&chars_of(""), &chars_of("a")));
    assert!(contains(&chars_of("aab"), &chars_of("ab")));
}

#[test]
fn keeps_entry_on_characters() {
    assert!(keeps_entry(&chars_of("/"), &chars_of("/quit")));
    assert!(!keeps_entry(&chars_of("@q@"), &chars_of("/quit")));
    assert!(keeps_entry(&chars_of("@q@ui"), &chars_of("/quit")));
}

#[test]
fn non_ascii_text_is_lowercased_too() {
    let mut completion = Completion::new(strings(&["/ÉCOLE", "@Straße"]));
    assert_eq!(completion.get_suggestions("/éc").unwrap(), strings(&["/ÉCOLE"]));
    assert_eq!(completion.get_suggestions("@STRA").unwrap(), strings(&["@Straße"]));
}
