//! The HTML bodies of the outbound mails, built by plain substitution into
//! fixed templates.

use vstd::prelude::*;
use vstd::string::StringExecFns;

verus! {

/// The password-reset mail body for a reset link and the sending site's
/// link.
pub open spec fn reset_link_body(reset: Seq<char>, link: Seq<char>) -> Seq<char> {
    r#"
  <!DOCTYPE html>
  <html lang="en">
    <head>
      <meta charset="UTF-8">
      <meta name="viewport" content="width=device-width, initial-scale=1.0">
      <title>Password Reset</title>
    </head>
    <body>
      <div style="display: flex; flex-direction: column;">
        <header style="padding: 1rem; display: flex; flex-direction: column; align-items: center; justify-content: center;">
          <h2 style="margin: 0;">Password Reset</h2>
          <p style="margin: 0;">Click on the link below to reset your password</p>
        </header>
        <div style="display: flex; align-items: center; justify-content: center;">
          <a href=""#@ + reset + r#"">Reset Password</a>
        </div>
        <div style="display: flex; align-items: center; justify-content: center; flex-direction: column;">
          <p>Or copy and paste the link below into your browser:</p>
          <p>"#@ + reset + r#"</p>
        </div>
        <footer style="display: flex; align-items: center; justify-content: center;">
          <p>Mail send from <a href=""#@ + link + r#"">"#@ + link + r#"</a></p>
        </footer>
      </div>
    </body>
  </html>
  "#@
}

/// Renders the password-reset mail.
pub fn reset_link(reset: &str, link: &str) -> (r: String)
    ensures
        r@ == reset_link_body(reset@, link@),
{
    let mut s = String::new();
    s.append(
        r#"
  <!DOCTYPE html>
  <html lang="en">
    <head>
      <meta charset="UTF-8">
      <meta name="viewport" content="width=device-width, initial-scale=1.0">
      <title>Password Reset</title>
    </head>
    <body>
      <div style="display: flex; flex-direction: column;">
        <header style="padding: 1rem; display: flex; flex-direction: column; align-items: center; justify-content: center;">
          <h2 style="margin: 0;">Password Reset</h2>
          <p style="margin: 0;">Click on the link below to reset your password</p>
        </header>
        <div style="display: flex; align-items: center; justify-content: center;">
          <a href=""#,
    );
    s.append(reset);
    s.append(
        r#"">Reset Password</a>
        </div>
        <div style="display: flex; align-items: center; justify-content: center; flex-direction: column;">
          <p>Or copy and paste the link below into your browser:</p>
          <p>"#,
    );
    s.append(reset);
    s.append(
        r#"</p>
        </div>
        <footer style="display: flex; align-items: center; justify-content: center;">
          <p>Mail send from <a href=""#,
    );
    s.append(link);
    s.append(r#"">"#);
    s.append(link);
    s.append(
        r#"</a></p>
        </footer>
      </div>
    </body>
  </html>
  "#,
    );
    s
}

/// The test mail body for the sending site's link.
pub open spec fn test_email_body(link: Seq<char>) -> Seq<char> {
    r#"
  <!DOCTYPE html>
  <html lang="en">
    <head>
      <meta charset="UTF-8">
      <meta name="viewport" content="width=device-width, initial-scale=1.0">
      <title>Test Email</title>
    </head>
    <body>
      <div style="display: flex; flex-direction: column;">
        <header style="padding: 1rem; display: flex; flex-direction: column; align-items: center; justify-content: center;">
          <h2 style="margin: 0;">Test Email</h2>
          <p style="margin: 0;">This is a test email to verify the email sending functionality.</p>
        </header>
        <footer style="display: flex; align-items: center; justify-content: center;">
          <p>Mail send from <a href=""#@ + link + r#"">"#@ + link + r#"</a></p>
        </footer>
      </div>
    </body>
  </html>
  "#@
}

/// Renders the test mail.
pub fn test_email(link: &str) -> (r: String)
    ensures
        r@ == test_email_body(link@),
{
    let mut s = String::new();
    s.append(
        r#"
  <!DOCTYPE html>
  <html lang="en">
    <head>
      <meta charset="UTF-8">
      <meta name="viewport" content="width=device-width, initial-scale=1.0">
      <title>Test Email</title>
    </head>
    <body>
      <div style="display: flex; flex-direction: column;">
        <header style="padding: 1rem; display: flex; flex-direction: column; align-items: center; justify-content: center;">
          <h2 style="margin: 0;">Test Email</h2>
          <p style="margin: 0;">This is a test email to verify the email sending functionality.</p>
        </header>
        <footer style="display: flex; align-items: center; justify-content: center;">
          <p>Mail send from <a href=""#,
    );
    s.append(link);
    s.append(r#"">"#);
    s.append(link);
    s.append(
        r#"</a></p>
        </footer>
      </div>
    </body>
  </html>
  "#,
    );
    s
}

} // verus!
