//! The HTML around a message. Deliberately conservative (table layout, inline
//! styles, no remote images or fonts): e-mail clients strip most CSS and block
//! external resources.

use vstd::prelude::*;

verus! {

/// The heading.
pub const H1_OPEN: &'static str = r#"<h1 style="margin:0 0 16px;font-size:21px;line-height:1.3;color:#1f1b2e;">"#;

pub const H1_CLOSE: &'static str = r#"</h1>"#;

/// A paragraph.
pub const P_OPEN: &'static str = r#"<p style="margin:0 0 14px;">"#;

pub const P_CLOSE: &'static str = r#"</p>"#;

/// A one-time code.
pub const CODE_OPEN: &'static str = r#"<p style="margin:22px 0;text-align:center;"><span style="display:inline-block;padding:12px 22px;font-family:Menlo,Consolas,'Courier New',monospace;font-size:28px;font-weight:700;letter-spacing:6px;color:#1f1b2e;background:#f4f2fa;border-radius:8px;">"#;

pub const CODE_CLOSE: &'static str = r#"</span></p>"#;

/// A list.
pub const UL_OPEN: &'static str = r#"<ul style="margin:0 0 14px;padding-left:20px;">"#;

pub const LI_OPEN: &'static str = r#"<li style="margin:0 0 8px;">"#;

pub const LI_CLOSE: &'static str = r#"</li>"#;

pub const UL_CLOSE: &'static str = r#"</ul>"#;

/// The button.
pub const CTA_OPEN: &'static str = r#"<table role="presentation" cellpadding="0" cellspacing="0" border="0" style="margin:22px 0;"><tr><td style="border-radius:8px;background:#6d28d9;"><a href=""#;

pub const CTA_MIDDLE: &'static str = r#"" style="display:inline-block;padding:12px 22px;font-family:-apple-system,BlinkMacSystemFont,'Segoe UI',Roboto,Helvetica,Arial,sans-serif;font-size:15px;font-weight:600;color:#ffffff;text-decoration:none;border-radius:8px;">"#;

pub const CTA_CLOSE: &'static str = r#"</a></td></tr></table>"#;

/// The closing note.
pub const NOTE_OPEN: &'static str = r#"<p style="margin:18px 0 0;font-size:13px;color:#5b5670;">"#;

/// The footer.
pub const SMALL_OPEN: &'static str = r#"<p style="margin:0 0 8px;">"#;

pub const LAST_OPEN: &'static str = r#"<p style="margin:0;">"#;

pub const A_OPEN: &'static str = r#"<a href=""#;

pub const A_MIDDLE: &'static str = r#"" style="color:#6d28d9;">"#;

pub const A_CLOSE: &'static str = r#"</a>"#;

pub const SEPARATOR: &'static str = r#" &middot; "#;

/// The page around the message.
pub const PAGE_LANG: &'static str = r#"<!DOCTYPE html>
<html lang=""#;

pub const PAGE_TITLE: &'static str = r#"">
<head>
<meta charset="utf-8">
<meta name="viewport" content="width=device-width, initial-scale=1">
<meta name="color-scheme" content="light">
<title>"#;

pub const PAGE_PREHEADER: &'static str = r#"</title>
</head>
<body style="margin:0;padding:0;background:#f4f2fa;">
<div style="display:none;max-height:0;overflow:hidden;opacity:0;">"#;

pub const PAGE_BODY: &'static str = r#"</div>
<table role="presentation" width="100%" cellpadding="0" cellspacing="0" border="0" style="background:#f4f2fa;">
<tr><td align="center" style="padding:24px 12px;">
<table role="presentation" width="100%" cellpadding="0" cellspacing="0" border="0" style="max-width:560px;background:#ffffff;border:1px solid #e6e1f5;border-radius:12px;">
<tr><td style="padding:20px 28px;border-bottom:3px solid #6d28d9;font-family:-apple-system,BlinkMacSystemFont,'Segoe UI',Roboto,Helvetica,Arial,sans-serif;font-size:20px;font-weight:700;color:#6d28d9;">Setlyst</td></tr>
<tr><td style="padding:28px;font-family:-apple-system,BlinkMacSystemFont,'Segoe UI',Roboto,Helvetica,Arial,sans-serif;font-size:15px;line-height:1.6;color:#1f1b2e;">"#;

pub const PAGE_FOOT: &'static str = r#"</td></tr>
<tr><td style="padding:18px 28px;border-top:1px solid #eeeaf7;font-family:-apple-system,BlinkMacSystemFont,'Segoe UI',Roboto,Helvetica,Arial,sans-serif;font-size:12px;line-height:1.5;color:#6b6680;">"#;

pub const PAGE_END: &'static str = r#"</td></tr>
</table>
</td></tr>
</table>
</body>
</html>"#;

} // verus!
