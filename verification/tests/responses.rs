use velox::auth::{AuthCommand, AuthService, AuthStep};
use velox::dto::{CreateFolderRequest, LoginRequest, RenameFileRequest};
use velox::handlers::FolderHandler;
use velox::scoped::{ScopedCommand, ScopedStep};
use velox::error::VeloxError;
use velox::handlers::{AuthHandler, FieldKind, FileHandler, UploadForm, ACCESS_COOKIE_MAX_AGE, REFRESH_COOKIE_MAX_AGE};
use velox::models::ResponseType;

#[test]
fn every_failure_has_its_status_and_code() {
    let cases = [
        (VeloxError::SqlxError("x".to_string()), 500, "DATABASE_ERROR"),
        (VeloxError::ValidationError("x".to_string()), 400, "VALIDATION_ERROR"),
        (VeloxError::EmailError, 500, "EMAIL_ERROR"),
        (VeloxError::JwtError, 500, "JWT_ERROR"),
        (VeloxError::InvalidToken, 401, "INVALID_TOKEN"),
        (VeloxError::NotFound, 404, "RESOURCE_NOT_FOUND"),
        (VeloxError::RouteNotFound, 404, "ROUTE_NOT_FOUND"),
        (VeloxError::AuthError, 401, "AUTH_ERROR"),
        (VeloxError::InternalError, 500, "INTERNAL_ERROR"),
        (VeloxError::EnvError("x".to_string()), 500, "ENV_ERROR"),
        (VeloxError::StorageLimitExceeded, 400, "StorageLimitExceeded"),
    ];
    for (e, status, code) in cases {
        assert_eq!(e.status_code(), status);
        assert_eq!(e.error_code(), code);
        assert_eq!(e.response_parts(), (status, code));
    }
}

#[test]
fn session_cookies() {
    let (access, refresh) = AuthHandler::session_cookies("a".to_string(), "r".to_string());
    assert_eq!(access.name, "access_token");
    assert_eq!(access.value, "a");
    assert_eq!(access.max_age_secs, Some(15 * 60));
    assert_eq!(ACCESS_COOKIE_MAX_AGE, 900);
    assert_eq!(refresh.name, "refresh_token");
    assert_eq!(refresh.value, "r");
    assert_eq!(refresh.max_age_secs, Some(30 * 24 * 60 * 60));
    assert_eq!(REFRESH_COOKIE_MAX_AGE, 2_592_000);
    for c in [&access, &refresh] {
        assert_eq!(c.path, "/");
        assert!(c.http_only && c.secure && c.same_site_strict);
    }
    let (r, a) = AuthHandler::removal_cookies();
    assert_eq!(r.name, "refresh_token");
    assert_eq!(a.name, "access_token");
    assert_eq!(r.value, "");
    assert_eq!(a.max_age_secs, None);
    assert_eq!(a.path, "/");
}

#[test]
fn upload_form_fields() {
    assert_eq!(FileHandler::field_kind(Some("file")), FieldKind::File);
    assert_eq!(FileHandler::field_kind(Some("folder_id")), FieldKind::FolderId);
    assert_eq!(FileHandler::field_kind(Some("other")), FieldKind::Other);
    assert_eq!(FileHandler::field_kind(None), FieldKind::Other);

    let mut form = UploadForm::new();
    form.add_file(Some("a.txt"), Some("text/plain"));
    form.add_file(None, None);
    assert_eq!(form.files[0].file_name, "a.txt");
    assert_eq!(form.files[0].content_type, "text/plain");
    assert_eq!(form.files[1].file_name, "unknown");
    assert_eq!(form.files[1].content_type, "application/octet-stream");

    assert_eq!(form.set_folder_id(b"67e55044-10b1-426f-9247-bb680e5fe0c8".to_vec()), Ok(()));
    assert_eq!(form.folder_id, Some(0x67e5_5044_10b1_426f_9247_bb68_0e5f_e0c8));
    assert_eq!(form.set_folder_id(b"nonsense".to_vec()), Ok(()));
    assert_eq!(form.folder_id, None);
    assert_eq!(form.set_folder_id(b"67e55044-10b1-426f-9247-bb680e5fe0c8".to_vec()), Ok(()));
    assert_eq!(
        form.set_folder_id(vec![0xc3, 0x28]),
        Err(VeloxError::ValidationError("invalid folder_id".to_string()))
    );
    assert_eq!(form.folder_id, Some(0x67e5_5044_10b1_426f_9247_bb68_0e5f_e0c8));
    assert_eq!(form.files.len(), 2);
}

fn expected_html(frontend_url: &str, raw_token: &str, kind: ResponseType) -> String {
    let (label, heading, body, cta) = match kind {
        ResponseType::LogIn => (
            "Sign in",
            "Your login link is ready",
            "Click the button below to sign in to your Velox account. This link expires in <strong style=\"color:#111;font-weight:500\">15 minutes</strong> and can only be used once.",
            "Sign in to Velox",
        ),
        ResponseType::SignIn => (
            "Welcome",
            "Verify your email address",
            "Thanks for signing up for Velox. Click the button below to verify your email and activate your account. This link expires in <strong style=\"color:#111;font-weight:500\">15 minutes</strong>.",
            "Verify email address",
        ),
    };
    let link = format!("{}/auth/authorize?token={}", frontend_url, raw_token);
    format!(
        r#"
    <!DOCTYPE html><html><body style="margin:0;padding:0;background:#f5f5f5;font-family:sans-serif;">
    <table width="100%" cellpadding="0" cellspacing="0"><tr><td align="center" style="padding:40px 16px;">
    <table width="560" cellpadding="0" cellspacing="0" style="background:#fff;border-radius:12px;overflow:hidden;border:1px solid #e5e5e5;">
      <tr><td style="background:#0f0f0f;padding:24px 32px;">
        <span style="color:#fff;font-size:18px;font-weight:600;">Velox</span>
      </td></tr>
      <tr><td style="padding:36px 32px 28px;">
        <p style="font-size:12px;color:#888;margin:0 0 8px;text-transform:uppercase;letter-spacing:.08em;">{label}</p>
        <h1 style="font-size:22px;font-weight:600;margin:0 0 16px;color:#111;">{heading}</h1>
        <p style="font-size:15px;line-height:1.7;color:#555;margin:0 0 28px;">{body}</p>
        <a href="{link}" style="display:inline-block;background:#6366f1;color:#fff;text-decoration:none;padding:13px 28px;border-radius:8px;font-size:15px;font-weight:500;">{cta}</a>
        <div style="margin-top:28px;padding-top:20px;border-top:1px solid #f0f0f0;">
          <p style="font-size:13px;color:#888;margin:0 0 6px;">Or copy this link into your browser:</p>
          <p style="font-size:12px;color:#aaa;word-break:break-all;margin:0;font-family:monospace;background:#f9f9f9;padding:10px 12px;border-radius:6px;">{link}</p>
        </div>
      </td></tr>
      <tr><td style="padding:16px 32px;background:#fafafa;border-top:1px solid #f0f0f0;">
        <p style="font-size:12px;color:#aaa;margin:0;">If you didn't request this, you can safely ignore this email.</p>
      </td></tr>
    </table>
    </td></tr></table>
    </body></html>
        "#,
        label = label,
        heading = heading,
        body = body,
        cta = cta,
        link = link
    )
}

#[test]
fn magic_link_email() {
    for kind in [ResponseType::LogIn, ResponseType::SignIn] {
        assert_eq!(
            AuthService::magic_link_html("https://app.example", "abc123", &kind),
            expected_html("https://app.example", "abc123", kind)
        );
    }
    assert_eq!(
        AuthService::magic_link("https://app.example", "abc123"),
        "https://app.example/auth/authorize?token=abc123"
    );
    assert_eq!(AuthService::mail_subject(&ResponseType::LogIn), "Your velox login link");
    assert_eq!(AuthService::mail_subject(&ResponseType::SignIn), "Welcome to Velox - verify your email");
    assert_eq!(velox::mail::MAIL_FROM, "Velox <onboarding@resend.dev>");
}

#[test]
fn handlers_check_the_body_before_starting() {

    match AuthHandler::login_user(&LoginRequest { email: "x@example.com".to_string() }) {
        Ok((_, AuthStep::Run(AuthCommand::FindUserByEmail(e)))) => assert_eq!(e, "x@example.com"),
        other => panic!("{:?}", other.map(|(_, s)| s)),
    }
    assert_eq!(
        AuthHandler::login_user(&LoginRequest { email: "nope".to_string() }).err(),
        Some(VeloxError::ValidationError("email: Invalid email format".to_string()))
    );

    match FolderHandler::create_folder("a@b.c", &CreateFolderRequest { name: "docs".to_string(), parent_id: None }) {
        Ok((_, ScopedStep::Run(ScopedCommand::FindUserByEmail(e)))) => assert_eq!(e, "a@b.c"),
        other => panic!("{:?}", other.map(|(_, s)| s)),
    }
    assert_eq!(
        FolderHandler::create_folder("a@b.c", &CreateFolderRequest { name: String::new(), parent_id: None }).err(),
        Some(VeloxError::ValidationError("name: invalid folder name".to_string()))
    );

    assert!(FileHandler::rename("a@b.c", 1, &RenameFileRequest { new_name: "ok".to_string() }).is_ok());
    assert_eq!(
        FileHandler::rename("a@b.c", 1, &RenameFileRequest { new_name: "x".repeat(101) }).err(),
        Some(VeloxError::ValidationError("new_name: invalid file name".to_string()))
    );
}

#[test]
fn mail_takes_address_and_token_only_through_the_link() {
    for kind in [ResponseType::LogIn, ResponseType::SignIn] {
        let html = AuthService::magic_link_html("https://app.example", "abc123", &kind);
        let bare = AuthService::magic_link_html("", "", &kind);
        let link = AuthService::magic_link("https://app.example", "abc123");
        assert_eq!(html, bare.replace("/auth/authorize?token=", &link));
        assert_eq!(html.matches(link.as_str()).count(), 2);
    }
}

#[test]
fn refresh_and_logout_need_the_refresh_cookie() {
    assert_eq!(AuthHandler::refresh(None).err(), Some(VeloxError::AuthError));
    assert_eq!(AuthHandler::logout(None).err(), Some(VeloxError::AuthError));
    let hash = AuthService::generate_sha256("tok");
    let (_, step) = AuthHandler::refresh(Some("tok".to_string())).unwrap();
    assert!(matches!(step, AuthStep::Run(AuthCommand::FindRefreshToken(h)) if h == hash));
    let (_, step) = AuthHandler::logout(Some("tok".to_string())).unwrap();
    assert!(matches!(step, AuthStep::Run(AuthCommand::DeleteRefreshToken(h)) if h == hash));
}
