//! The magic link e-mail.
use vstd::prelude::*;
use crate::models::ResponseType;
use crate::text::lacks_char;

verus! {

/// The sender of every magic link e-mail.
pub const MAIL_FROM: &'static str = "Velox <onboarding@resend.dev>";

/// The path, relative to the front end, that a magic link opens.
pub const AUTHORIZE_PATH: &'static str = "/auth/authorize?token=";

pub const HTML_HEAD: &'static str = "\n    <!DOCTYPE html><html><body style=\"margin:0;padding:0;background:#f5f5f5;font-family:sans-serif;\">\n    <table width=\"100%\" cellpadding=\"0\" cellspacing=\"0\"><tr><td align=\"center\" style=\"padding:40px 16px;\">\n    <table width=\"560\" cellpadding=\"0\" cellspacing=\"0\" style=\"background:#fff;border-radius:12px;overflow:hidden;border:1px solid #e5e5e5;\">\n      <tr><td style=\"background:#0f0f0f;padding:24px 32px;\">\n        <span style=\"color:#fff;font-size:18px;font-weight:600;\">Velox</span>\n      </td></tr>\n      <tr><td style=\"padding:36px 32px 28px;\">\n        <p style=\"font-size:12px;color:#888;margin:0 0 8px;text-transform:uppercase;letter-spacing:.08em;\">";

pub const HTML_AFTER_LABEL: &'static str = "</p>\n        <h1 style=\"font-size:22px;font-weight:600;margin:0 0 16px;color:#111;\">";

pub const HTML_AFTER_HEADING: &'static str = "</h1>\n        <p style=\"font-size:15px;line-height:1.7;color:#555;margin:0 0 28px;\">";

pub const HTML_AFTER_BODY: &'static str = "</p>\n        <a href=\"";

pub const HTML_AFTER_HREF: &'static str = "\" style=\"display:inline-block;background:#6366f1;color:#fff;text-decoration:none;padding:13px 28px;border-radius:8px;font-size:15px;font-weight:500;\">";

pub const HTML_AFTER_CTA: &'static str = "</a>\n        <div style=\"margin-top:28px;padding-top:20px;border-top:1px solid #f0f0f0;\">\n          <p style=\"font-size:13px;color:#888;margin:0 0 6px;\">Or copy this link into your browser:</p>\n          <p style=\"font-size:12px;color:#aaa;word-break:break-all;margin:0;font-family:monospace;background:#f9f9f9;padding:10px 12px;border-radius:6px;\">";

pub const HTML_TAIL: &'static str = "</p>\n        </div>\n      </td></tr>\n      <tr><td style=\"padding:16px 32px;background:#fafafa;border-top:1px solid #f0f0f0;\">\n        <p style=\"font-size:12px;color:#aaa;margin:0;\">If you didn't request this, you can safely ignore this email.</p>\n      </td></tr>\n    </table>\n    </td></tr></table>\n    </body></html>\n        ";

pub const LOGIN_LABEL: &'static str = "Sign in";

pub const LOGIN_HEADING: &'static str = "Your login link is ready";

pub const LOGIN_BODY: &'static str = "Click the button below to sign in to your Velox account. This link expires in <strong style=\"color:#111;font-weight:500\">15 minutes</strong> and can only be used once.";

pub const LOGIN_CTA: &'static str = "Sign in to Velox";

pub const SIGNUP_LABEL: &'static str = "Welcome";

pub const SIGNUP_HEADING: &'static str = "Verify your email address";

pub const SIGNUP_BODY: &'static str = "Thanks for signing up for Velox. Click the button below to verify your email and activate your account. This link expires in <strong style=\"color:#111;font-weight:500\">15 minutes</strong>.";

pub const SIGNUP_CTA: &'static str = "Verify email address";

pub const LOGIN_SUBJECT: &'static str = "Your velox login link";

pub const SIGNUP_SUBJECT: &'static str = "Welcome to Velox - verify your email";

/// The link a magic link e-mail carries.
pub open spec fn spec_magic_link(frontend_url: Seq<char>, raw_token: Seq<char>) -> Seq<char> {
    frontend_url + AUTHORIZE_PATH@ + raw_token
}

/// The texts of the e-mail: label, heading, body and button.
pub open spec fn spec_mail_texts(kind: ResponseType) -> (Seq<char>, Seq<char>, Seq<char>, Seq<char>) {
    match kind {
        ResponseType::LogIn => (LOGIN_LABEL@, LOGIN_HEADING@, LOGIN_BODY@, LOGIN_CTA@),
        ResponseType::SignIn => (SIGNUP_LABEL@, SIGNUP_HEADING@, SIGNUP_BODY@, SIGNUP_CTA@),
    }
}

/// The HTML of the e-mail: the texts of its kind, and the link both behind
/// the button and spelled out.
pub open spec fn spec_magic_link_html(frontend_url: Seq<char>, raw_token: Seq<char>, kind: ResponseType) -> Seq<char> {
    let (label, heading, body, cta) = spec_mail_texts(kind);
    let link = spec_magic_link(frontend_url, raw_token);
    HTML_HEAD@ + label + HTML_AFTER_LABEL@ + heading + HTML_AFTER_HEADING@ + body + HTML_AFTER_BODY@ + link
        + HTML_AFTER_HREF@ + cta + HTML_AFTER_CTA@ + link + HTML_TAIL@
}

/// The e-mail of each kind around its link: the text before the link's
/// first place (behind the button), between its two places, and after the
/// second (spelled out).
pub open spec fn mail_frame(kind: ResponseType) -> (Seq<char>, Seq<char>, Seq<char>) {
    let (label, heading, body, cta) = spec_mail_texts(kind);
    (
        HTML_HEAD@ + label + HTML_AFTER_LABEL@ + heading + HTML_AFTER_HEADING@ + body + HTML_AFTER_BODY@,
        HTML_AFTER_HREF@ + cta + HTML_AFTER_CTA@,
        HTML_TAIL@,
    )
}

/// The mail's frame holds no `?`, and the link's path holds one, after
/// none: so the path, and with it the link, can start nowhere in the frame.
pub proof fn lemma_frame_unmarked(kind: ResponseType)
    ensures
        lacks_char(mail_frame(kind).0, '?'),
        lacks_char(mail_frame(kind).1, '?'),
        lacks_char(mail_frame(kind).2, '?'),
        AUTHORIZE_PATH@.len() == 22,
        AUTHORIZE_PATH@[15] == '?',
        forall|k: int| 0 <= k < 15 ==> AUTHORIZE_PATH@[k] != '?',
{
    reveal_strlit("/auth/authorize?token=");
    reveal_strlit("\n    <!DOCTYPE html><html><body style=\"margin:0;padding:0;background:#f5f5f5;font-family:sans-serif;\">\n    <table width=\"100%\" cellpadding=\"0\" cellspacing=\"0\"><tr><td align=\"center\" style=\"padding:40px 16px;\">\n    <table width=\"560\" cellpadding=\"0\" cellspacing=\"0\" style=\"background:#fff;border-radius:12px;overflow:hidden;border:1px solid #e5e5e5;\">\n      <tr><td style=\"background:#0f0f0f;padding:24px 32px;\">\n        <span style=\"color:#fff;font-size:18px;font-weight:600;\">Velox</span>\n      </td></tr>\n      <tr><td style=\"padding:36px 32px 28px;\">\n        <p style=\"font-size:12px;color:#888;margin:0 0 8px;text-transform:uppercase;letter-spacing:.08em;\">");
    reveal_strlit("</p>\n        <h1 style=\"font-size:22px;font-weight:600;margin:0 0 16px;color:#111;\">");
    reveal_strlit("</h1>\n        <p style=\"font-size:15px;line-height:1.7;color:#555;margin:0 0 28px;\">");
    reveal_strlit("</p>\n        <a href=\"");
    reveal_strlit("\" style=\"display:inline-block;background:#6366f1;color:#fff;text-decoration:none;padding:13px 28px;border-radius:8px;font-size:15px;font-weight:500;\">");
    reveal_strlit("</a>\n        <div style=\"margin-top:28px;padding-top:20px;border-top:1px solid #f0f0f0;\">\n          <p style=\"font-size:13px;color:#888;margin:0 0 6px;\">Or copy this link into your browser:</p>\n          <p style=\"font-size:12px;color:#aaa;word-break:break-all;margin:0;font-family:monospace;background:#f9f9f9;padding:10px 12px;border-radius:6px;\">");
    reveal_strlit("</p>\n        </div>\n      </td></tr>\n      <tr><td style=\"padding:16px 32px;background:#fafafa;border-top:1px solid #f0f0f0;\">\n        <p style=\"font-size:12px;color:#aaa;margin:0;\">If you didn't request this, you can safely ignore this email.</p>\n      </td></tr>\n    </table>\n    </td></tr></table>\n    </body></html>\n        ");
    reveal_strlit("Sign in");
    reveal_strlit("Your login link is ready");
    reveal_strlit("Click the button below to sign in to your Velox account. This link expires in <strong style=\"color:#111;font-weight:500\">15 minutes</strong> and can only be used once.");
    reveal_strlit("Sign in to Velox");
    reveal_strlit("Welcome");
    reveal_strlit("Verify your email address");
    reveal_strlit("Thanks for signing up for Velox. Click the button below to verify your email and activate your account. This link expires in <strong style=\"color:#111;font-weight:500\">15 minutes</strong>.");
    reveal_strlit("Verify email address");
    assert(lacks_char(HTML_HEAD@, '?'));
    assert(lacks_char(HTML_AFTER_LABEL@, '?'));
    assert(lacks_char(HTML_AFTER_HEADING@, '?'));
    assert(lacks_char(HTML_AFTER_BODY@, '?'));
    assert(lacks_char(HTML_AFTER_HREF@, '?'));
    assert(lacks_char(HTML_AFTER_CTA@, '?'));
    assert(lacks_char(HTML_TAIL@, '?'));
    assert(lacks_char(LOGIN_LABEL@, '?'));
    assert(lacks_char(LOGIN_HEADING@, '?'));
    assert(lacks_char(LOGIN_BODY@, '?'));
    assert(lacks_char(LOGIN_CTA@, '?'));
    assert(lacks_char(SIGNUP_LABEL@, '?'));
    assert(lacks_char(SIGNUP_HEADING@, '?'));
    assert(lacks_char(SIGNUP_BODY@, '?'));
    assert(lacks_char(SIGNUP_CTA@, '?'));
}

/// The subject of the e-mail.
pub open spec fn spec_mail_subject(kind: ResponseType) -> Seq<char> {
    match kind {
        ResponseType::LogIn => LOGIN_SUBJECT@,
        ResponseType::SignIn => SIGNUP_SUBJECT@,
    }
}

} // verus!
