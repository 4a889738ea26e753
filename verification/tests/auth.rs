use onlinerpg::auth::{token_matches, AuthContext, GoogleClaims};

fn context(emails: &[&str]) -> AuthContext {
    AuthContext {
        google: None,
        npc_token: "0123456789abcdef".to_string(),
        admin_emails: emails.iter().map(|e| e.to_string()).collect(),
        dev_auth: false,
    }
}

fn claims(email: Option<&str>, verified: Option<bool>) -> GoogleClaims {
    GoogleClaims {
        sub: "1".to_string(),
        email: email.map(|e| e.to_string()),
        email_verified: verified,
    }
}

#[test]
fn token_matches_requires_exact_token() {
    assert!(token_matches("secret-token", "secret-token"));
    assert!(!token_matches("secret-token", "secret-tokeN"));
    assert!(!token_matches("secret", "secret-token"));
    assert!(!token_matches("", "secret-token"));
}

#[test]
fn tokens_compare_beyond_ascii() {
    assert!(token_matches("", ""));
    assert!(token_matches("schlüssel-漢字", "schlüssel-漢字"));
    assert!(!token_matches("schlüssel", "schlussel!"));
    assert!(!token_matches("é", "è"));
}

#[test]
fn admin_needs_a_verified_listed_email() {
    let ctx = context(&["boss@example.com", "Ops@Example.com"]);
    assert!(ctx.is_admin(&claims(Some("boss@example.com"), Some(true))));
    assert!(ctx.is_admin(&claims(Some("ops@example.com"), Some(true))));
    assert!(!ctx.is_admin(&claims(Some("boss@example.com"), Some(false))));
    assert!(!ctx.is_admin(&claims(Some("boss@example.com"), None)));
    assert!(!ctx.is_admin(&claims(None, Some(true))));
    assert!(!ctx.is_admin(&claims(Some("someone@example.com"), Some(true))));
    assert!(!context(&[]).is_admin(&claims(Some("boss@example.com"), Some(true))));
}

#[test]
fn allowlist_ignores_ascii_case_only() {
    let ctx = context(&["BOSS@EXAMPLE.COM", "größe@example.com"]);
    assert!(ctx.is_admin(&claims(Some("bOsS@example.com"), Some(true))));
    assert!(ctx.is_admin(&claims(Some("GRößE@example.com"), Some(true))));
    assert!(!ctx.is_admin(&claims(Some("GRÖßE@example.com"), Some(true))));
}

#[test]
fn accounts_are_looked_up_by_sub() {
    let claims = GoogleClaims {
        sub: "sub-1".to_string(),
        email: Some("boss@example.com".to_string()),
        email_verified: Some(true),
    };
    assert_eq!(claims.account_key(), "sub-1");
}
