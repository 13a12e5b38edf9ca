use thequotebook::filters::{
    comments_text, escape, gravatar, gravatar_for, i64_to_string, link_to_user,
    quote_marks_if_needed, trim_if_needed, tweet_quote_text, u64_to_string, urlencode,
};
use thequotebook::model::User;
use thequotebook::sessions::auth_url;

fn sample_user() -> User {
    User {
        id: 7,
        email_address: Some("".to_string()),
        username: Some("someone".to_string()),
        fullname: "Some One".to_string(),
        openid: None,
    }
}

#[test]
fn test_escape() {
    assert_eq!(escape("<a>&b"), "&#60;a&#62;&#38;b");
    assert_eq!(escape("\"'"), "&#34;&#39;");
}

#[test]
fn escape_leaves_plain_text_alone() {
    assert_eq!(escape("plain text!"), "plain text!");
    assert_eq!(escape(""), "");
}

#[test]
fn trim_keeps_short_text() {
    assert_eq!(trim_if_needed("hello", 40), "hello");
    assert_eq!(trim_if_needed("hello", 5), "hello");
}

#[test]
fn trim_cuts_long_text_with_ellipsis() {
    assert_eq!(trim_if_needed("abcdefgh", 6), "abc...");
    assert_eq!(trim_if_needed("abcdefgh", 7), "abcd...");
}

#[test]
fn quote_marks_added_when_missing() {
    assert_eq!(quote_marks_if_needed("hi there"), "\"hi there\"");
    assert_eq!(quote_marks_if_needed(""), "\"\"");
}

#[test]
fn trim_of_empty_text_is_empty() {
    assert_eq!(trim_if_needed("", 3), "");
}

#[test]
fn quote_marks_kept_when_present() {
    assert_eq!(
        quote_marks_if_needed("say \"cheese\" now"),
        "say \"cheese\" now"
    );
}

#[test]
fn tweet_text_quotes_and_trims() {
    assert_eq!(tweet_quote_text("hello"), "\"hello\"");
    let long = "x".repeat(100);
    let tweeted = tweet_quote_text(&long);
    assert_eq!(tweeted.chars().count(), 80);
    assert_eq!(tweeted, format!("\"{}...", "x".repeat(76)));
}

#[test]
fn decimal_rendering_matches_std() {
    assert_eq!(u64_to_string(0), "0");
    assert_eq!(u64_to_string(12345), "12345");
    assert_eq!(u64_to_string(u64::MAX), u64::MAX.to_string());
    assert_eq!(i64_to_string(-42), "-42");
    assert_eq!(i64_to_string(7), "7");
    assert_eq!(i64_to_string(i64::MIN), i64::MIN.to_string());
}

#[test]
fn gravatar_hashes_the_email() {
    // The digest of the empty string is well known; if the digest step
    // returned its input unchanged this would not match.
    let tag = gravatar("", 80, "gravatar");
    assert_eq!(
        tag,
        "<img class=\"gravatar\" alt=\"avatar\" width=\"80\" height=\"80\" \
         src=\"http://www.gravatar.com/avatar.php?gravatar_id=d41d8cd98f00b204e9800998ecf8427e\
         &#38;size=80&#38;rating=PG\"/>"
    );
}

#[test]
fn gravatar_for_uses_the_users_email() {
    let user = sample_user();
    assert_eq!(gravatar_for(&user, &48, "avatar"), gravatar("", 48, "avatar"));
    let digest = format!("{:x}", md5::compute("a@b.c"));
    let mut with_email = sample_user();
    with_email.email_address = Some("a@b.c".to_string());
    let tag = gravatar_for(&with_email, &48, "avatar");
    assert!(tag.contains(&digest), "tag {:?} should embed {:?}", tag, digest);
}

#[test]
fn link_to_user_renders_a_link() {
    let user = sample_user();
    let html = link_to_user(&user, &false, &true, &false, &false, &80, "", "quotee");
    assert_eq!(
        html,
        "<a href=\"/users/7\" class=\"quotee\" title=\"Some One\" style=\"\">someone</a>"
    );
}

#[test]
fn link_to_user_escapes_the_name() {
    let mut user = sample_user();
    user.username = Some("a<b>".to_string());
    let html = link_to_user(&user, &false, &true, &false, &false, &80, "", "");
    assert_eq!(
        html,
        "<a href=\"/users/7\" class=\"\" title=\"Some One\" style=\"\">a&#60;b&#62;</a>"
    );
}

#[test]
fn link_to_user_swaps_names() {
    let user = sample_user();
    let html = link_to_user(&user, &false, &true, &true, &false, &80, "", "");
    assert_eq!(
        html,
        "<a href=\"/users/7\" class=\"\" title=\"someone\" style=\"\">Some One</a>"
    );
}

#[test]
fn link_to_user_without_link_is_bare_text() {
    let user = sample_user();
    let html = link_to_user(&user, &false, &false, &false, &false, &80, "> ", "");
    assert_eq!(html, "> someone");
}

#[test]
fn urlencode_keeps_unreserved_and_slashes() {
    assert_eq!(urlencode("/contexts/5"), "/contexts/5");
    assert_eq!(urlencode("a-b_c.d~e"), "a-b_c.d~e");
}

#[test]
fn urlencode_escapes_reserved_bytes() {
    assert_eq!(urlencode("/a b?x=1"), "/a%20b%3Fx%3D1");
    assert_eq!(urlencode("100%"), "100%25");
    // Multi-byte characters encode each UTF-8 byte.
    assert_eq!(urlencode("é"), "%C3%A9");
}

#[test]
fn auth_url_embeds_the_encoded_redirect() {
    assert_eq!(
        auth_url("https://quotes.example", &Some("/contexts/5?page=2".to_string())),
        "https://quotes.example/google_auth?redirect=/contexts/5%3Fpage%3D2"
    );
    assert_eq!(
        auth_url("https://quotes.example", &None),
        "https://quotes.example/google_auth"
    );
}

#[test]
fn comments_text_counts() {
    assert_eq!(comments_text(0, true), "No comments (yet).");
    assert_eq!(comments_text(1, true), "1 comment.");
    assert_eq!(comments_text(12, true), "12 comments.");
    assert_eq!(comments_text(12, false), "");
}
