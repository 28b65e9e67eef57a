use node_link::permissions::permissions;
use node_link::templates::{reset_link, test_email};

#[test]
fn permissions_lists_all_grantable_names() {
    assert_eq!(
        permissions(),
        vec![
            "node:view",
            "node:edit",
            "settings:view",
            "settings:edit",
            "group:view",
            "group:edit",
            "user:view",
            "user:edit",
        ]
    );
}

#[test]
fn reset_link_substitutes_both_links() {
    let body = reset_link("https://site.example/reset/abc", "https://site.example");
    assert_eq!(
        body.matches("https://site.example/reset/abc").count(),
        2
    );
    assert!(body.contains("<a href=\"https://site.example/reset/abc\">Reset Password</a>"));
    assert!(body.contains(
        "<p>Mail send from <a href=\"https://site.example\">https://site.example</a></p>"
    ));
    assert!(body.contains("<title>Password Reset</title>"));
}

#[test]
fn test_email_substitutes_the_link() {
    let body = test_email("https://site.example");
    assert!(body.contains(
        "<p>Mail send from <a href=\"https://site.example\">https://site.example</a></p>"
    ));
    assert!(body.contains("<title>Test Email</title>"));
    assert!(body.contains("This is a test email to verify the email sending functionality."));
}
