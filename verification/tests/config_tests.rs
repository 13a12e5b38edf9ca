use thequotebook::config::{
    default_base_url, default_bind_address, default_public_dir, default_session_duration, Config,
};
use thequotebook::model::{Context, Quote, QuoteWithUsers, User};
use thequotebook::quotes::QuoteForm;

fn sample_config() -> Config {
    Config {
        postgres_uri: "postgres://localhost/quotes".to_string(),
        public_dir: default_public_dir(),
        bind_address: default_bind_address(),
        google_client_id: "client-id.apps.example".to_string(),
        base_url: "https://quotes.example".to_string(),
        secret: "SECRET-REDACTED".to_string(),
        session_duration_seconds: default_session_duration(),
    }
}

#[test]
fn defaults_match_the_documented_values() {
    assert_eq!(default_public_dir(), "public");
    assert_eq!(default_bind_address(), "0.0.0.0:3000");
    assert_eq!(default_base_url(), "http://localhost:3000");
    assert_eq!(default_session_duration(), 2_592_000);
}

#[test]
fn absolute_url_joins_base_and_path() {
    let config = sample_config();
    assert_eq!(
        config.absolute_url("/quotes.atom"),
        "https://quotes.example/quotes.atom"
    );
    assert_eq!(config.absolute_url("/"), "https://quotes.example/");
}

fn sample_quote_with_users() -> QuoteWithUsers {
    QuoteWithUsers {
        quote: Quote {
            id: 1,
            quote_text: "A memorable line".to_string(),
            context_id: 2,
            quoter_id: 3,
            quotee_id: 4,
            created_at: 1_700_000_000,
            updated_at: 1_700_000_000,
            hidden: false,
        },
        quoter: User {
            id: 3,
            email_address: None,
            username: Some("recorder".to_string()),
            fullname: "Re Corder".to_string(),
            openid: None,
        },
        quotee: User {
            id: 4,
            email_address: None,
            username: None,
            fullname: "Quo Tee".to_string(),
            openid: None,
        },
        context: Context {
            id: 2,
            name: "standup".to_string(),
            description: "Daily standup".to_string(),
            quotes_count: 0,
        },
        comments_count: 5,
    }
}

#[test]
fn quote_form_default_is_blank() {
    let form = QuoteForm::default();
    assert_eq!(form.error_messages, "");
    assert!(form.possible_quotee_matches.is_none());
    assert_eq!(form.quotee, "");
    assert_eq!(form.context_name, "");
    assert!(form.context.is_none());
    assert_eq!(form.quote_text, "");
}

#[test]
fn quote_form_prefills_from_a_quote() {
    let quote = sample_quote_with_users();
    let form = QuoteForm::from(quote.clone());
    assert_eq!(form.error_messages, "");
    assert!(form.possible_quotee_matches.is_none());
    assert_eq!(form.quotee, "Quo Tee");
    assert_eq!(form.context_name, "standup");
    assert_eq!(form.context, Some(quote.context));
    assert_eq!(form.quote_text, "A memorable line");
}
