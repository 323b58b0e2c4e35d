//! Branded transactional emails and the two standalone pages of the
//! one-click owner flow. Table-based layout with inline styles only. Every
//! email is `(subject, html, text)`, the plain-text part mirroring the HTML,
//! and every guest-supplied value interpolated into HTML is escaped.

use crate::bookings::Booking;
use crate::dates::{Date, chrono_date_text};
use crate::text::{concat2, concat3, push_signed, signed_decimal, trim, trim_spec};
use vstd::prelude::*;

verus! {

/// `(subject, html, text)`.
pub type Email = (String, String, String);

pub open spec fn email_view(e: Email) -> (Seq<char>, Seq<char>, Seq<char>) {
    (e.0@, e.1@, e.2@)
}

/// What one character becomes in escaped HTML.
pub open spec fn esc_char(c: char) -> Seq<char> {
    if c == '&' {
        "&amp;"@
    } else if c == '<' {
        "&lt;"@
    } else if c == '>' {
        "&gt;"@
    } else if c == '"' {
        "&quot;"@
    } else {
        seq![c]
    }
}

/// `s` with `&`, `<`, `>` and `"` replaced by their entities.
pub open spec fn esc_spec(s: Seq<char>) -> Seq<char>
    decreases s.len(),
{
    if s.len() == 0 {
        Seq::empty()
    } else {
        esc_spec(s.drop_last()) + esc_char(s.last())
    }
}

/// Minimal HTML escape for interpolated, guest-supplied values.
pub fn esc(s: &str) -> (r: String)
    ensures
        r@ == esc_spec(s@),
{
    let v = crate::text::chars_of(s);
    let mut r = String::new();
    let mut i: usize = 0;
    while i < v.len()
        invariant
            v@ == s@,
            i <= v@.len(),
            r@ == esc_spec(s@.subrange(0, i as int)),
        decreases v@.len() - i,
    {
        proof {
            assert(s@.subrange(0, i + 1).drop_last() =~= s@.subrange(0, i as int));
        }
        let c = v[i];
        if c == '&' {
            r.append("&amp;");
        } else if c == '<' {
            r.append("&lt;");
        } else if c == '>' {
            r.append("&gt;");
        } else if c == '"' {
            r.append("&quot;");
        } else {
            r.push(c);
        }
        i = i + 1;
    }
    proof {
        assert(s@.subrange(0, s@.len() as int) =~= s@);
    }
    r
}

/// Escaped text never carries markup: no `<`, `>` or `"` survives.
pub proof fn law_escaped_text_has_no_markup(s: Seq<char>)
    ensures
        forall|i: int|
            0 <= i < esc_spec(s).len() ==> #[trigger] esc_spec(s)[i] != '<' && esc_spec(s)[i] != '>'
                && esc_spec(s)[i] != '"',
    decreases s.len(),
{
    if s.len() > 0 {
        law_escaped_text_has_no_markup(s.drop_last());
        let a = esc_spec(s.drop_last());
        let b = esc_char(s.last());
        reveal_strlit("&amp;");
        reveal_strlit("&lt;");
        reveal_strlit("&gt;");
        reveal_strlit("&quot;");
        assert forall|i: int| 0 <= i < esc_spec(s).len() implies #[trigger] esc_spec(s)[i] != '<'
            && esc_spec(s)[i] != '>' && esc_spec(s)[i] != '"' by {
            if i < a.len() {
                assert(esc_spec(s)[i] == a[i]);
            } else {
                assert(esc_spec(s)[i] == b[i - a.len()]);
            }
        }
    }
}

/// A day as emails print it: "Thu, Oct 1, 2026".
pub open spec fn pretty_spec(d: Date) -> Seq<char> {
    chrono_date_text(d.y(), d.m(), d.d(), "%a, %b %-d, %Y"@)
}

pub fn pretty(d: Date) -> (s: String)
    ensures
        s@ == pretty_spec(d),
{
    let r = d.format("%a, %b %-d, %Y");
    proof {
        reveal_strlit("%a, %b %-d, %Y");
    }
    r
}

/// Nights in a stay: days from check-in to check-out.
pub open spec fn nights_spec(b: Booking) -> int {
    crate::dates::days_from_civil(b.check_out.y(), b.check_out.m(), b.check_out.d())
        - crate::dates::days_from_civil(b.check_in.y(), b.check_in.m(), b.check_in.d())
}

pub fn nights(b: &Booking) -> (n: i64)
    ensures
        n == nights_spec(*b),
{
    b.check_out.days_after(&b.check_in)
}

pub open spec fn layout_spec(title: Seq<char>, body_html: Seq<char>, actions_html: Seq<char>) -> Seq<char> {
    "<!doctype html>\n<html><body style=\"margin:0;padding:0;background:#efe9df;\">\n<table role=\"presentation\" width=\"100%\" cellpadding=\"0\" cellspacing=\"0\" style=\"background:#efe9df;padding:28px 14px;\">\n<tr><td align=\"center\">\n  <table role=\"presentation\" width=\"100%\" cellpadding=\"0\" cellspacing=\"0\" style=\"max-width:520px;border-radius:14px;overflow:hidden;border:1px solid #ddd2c2;\">\n    <tr><td style=\"background:#1a1a1a;padding:22px 26px;font-family:Georgia,'Times New Roman',serif;\">\n      <span style=\"font-size:21px;font-weight:700;color:#2d5a27;letter-spacing:.3px;\">Dulac</span>\n      <span style=\"font-size:21px;font-weight:700;color:#faf7f2;letter-spacing:.3px;\"> My Camp</span>\n    </td></tr>\n    <tr><td style=\"background:#faf7f2;padding:28px 26px;font-family:system-ui,-apple-system,'Segoe UI',sans-serif;\">\n      <h1 style=\"margin:0 0 16px;font-family:Georgia,'Times New Roman',serif;font-size:20px;font-weight:700;color:#1a1a1a;\">"@ + title + "</h1>\n      <div style=\"font-size:15px;line-height:1.65;color:#1a1a1a;\">"@ + body_html + "</div>\n      "@ + actions_html + "\n    </td></tr>\n    <tr><td style=\"background:#efe9df;padding:16px 26px;font-family:system-ui,-apple-system,'Segoe UI',sans-serif;border-top:1px solid #ddd2c2;\">\n      <p style=\"margin:0;font-size:12px;color:#6b6255;\">&copy; 2026 Dulac My Camp</p>\n    </td></tr>\n  </table>\n</td></tr></table>\n</body></html>"@
}

/// Shared chrome: dark header with the wordmark, cream body card, footer.
pub fn layout(title: &str, body_html: &str, actions_html: &str) -> (s: String)
    ensures
        s@ == layout_spec(title@, body_html@, actions_html@),
{
    let mut s = String::new();
    s.append("<!doctype html>\n<html><body style=\"margin:0;padding:0;background:#efe9df;\">\n<table role=\"presentation\" width=\"100%\" cellpadding=\"0\" cellspacing=\"0\" style=\"background:#efe9df;padding:28px 14px;\">\n<tr><td align=\"center\">\n  <table role=\"presentation\" width=\"100%\" cellpadding=\"0\" cellspacing=\"0\" style=\"max-width:520px;border-radius:14px;overflow:hidden;border:1px solid #ddd2c2;\">\n    <tr><td style=\"background:#1a1a1a;padding:22px 26px;font-family:Georgia,'Times New Roman',serif;\">\n      <span style=\"font-size:21px;font-weight:700;color:#2d5a27;letter-spacing:.3px;\">Dulac</span>\n      <span style=\"font-size:21px;font-weight:700;color:#faf7f2;letter-spacing:.3px;\"> My Camp</span>\n    </td></tr>\n    <tr><td style=\"background:#faf7f2;padding:28px 26px;font-family:system-ui,-apple-system,'Segoe UI',sans-serif;\">\n      <h1 style=\"margin:0 0 16px;font-family:Georgia,'Times New Roman',serif;font-size:20px;font-weight:700;color:#1a1a1a;\">");
    s.append(title);
    s.append("</h1>\n      <div style=\"font-size:15px;line-height:1.65;color:#1a1a1a;\">");
    s.append(body_html);
    s.append("</div>\n      ");
    s.append(actions_html);
    s.append("\n    </td></tr>\n    <tr><td style=\"background:#efe9df;padding:16px 26px;font-family:system-ui,-apple-system,'Segoe UI',sans-serif;border-top:1px solid #ddd2c2;\">\n      <p style=\"margin:0;font-size:12px;color:#6b6255;\">&copy; 2026 Dulac My Camp</p>\n    </td></tr>\n  </table>\n</td></tr></table>\n</body></html>");
    proof {
        assert(s@ =~= layout_spec(title@, body_html@, actions_html@));
    }
    s
}

pub open spec fn row_spec(label: Seq<char>, value: Seq<char>) -> Seq<char> {
    "<tr>\n  <td style=\"padding:5px 14px 5px 0;font-size:13px;color:#6b6255;white-space:nowrap;\">"@ + label + "</td>\n  <td style=\"padding:5px 0;font-size:14px;color:#1a1a1a;font-weight:600;\">"@ + value + "</td>\n</tr>"@
}

/// A labelled detail row inside the body card.
pub fn row(label: &str, value: &str) -> (s: String)
    ensures
        s@ == row_spec(label@, value@),
{
    let mut s = String::new();
    s.append("<tr>\n  <td style=\"padding:5px 14px 5px 0;font-size:13px;color:#6b6255;white-space:nowrap;\">");
    s.append(label);
    s.append("</td>\n  <td style=\"padding:5px 0;font-size:14px;color:#1a1a1a;font-weight:600;\">");
    s.append(value);
    s.append("</td>\n</tr>");
    proof {
        assert(s@ =~= row_spec(label@, value@));
    }
    s
}

pub open spec fn button_spec(label: Seq<char>, url: Seq<char>, color: Seq<char>) -> Seq<char> {
    "<td style=\"padding-right:10px;\"><table role=\"presentation\" cellpadding=\"0\" cellspacing=\"0\"><tr>\n  <td style=\"border-radius:8px;background:"@ + color + ";\">\n    <a href=\""@ + url + "\" style=\"display:inline-block;padding:13px 28px;font-family:system-ui,-apple-system,'Segoe UI',sans-serif;font-size:15px;font-weight:700;color:#ffffff;text-decoration:none;\">"@ + label + "</a>\n  </td></tr></table></td>"@
}

/// A call-to-action button.
pub fn button(label: &str, url: &str, color: &str) -> (s: String)
    ensures
        s@ == button_spec(label@, url@, color@),
{
    let mut s = String::new();
    s.append("<td style=\"padding-right:10px;\"><table role=\"presentation\" cellpadding=\"0\" cellspacing=\"0\"><tr>\n  <td style=\"border-radius:8px;background:");
    s.append(color);
    s.append(";\">\n    <a href=\"");
    s.append(url);
    s.append("\" style=\"display:inline-block;padding:13px 28px;font-family:system-ui,-apple-system,'Segoe UI',sans-serif;font-size:15px;font-weight:700;color:#ffffff;text-decoration:none;\">");
    s.append(label);
    s.append("</a>\n  </td></tr></table></td>");
    proof {
        assert(s@ =~= button_spec(label@, url@, color@));
    }
    s
}

pub open spec fn action_result_page_spec(heading: Seq<char>, detail: Seq<char>, ok: bool) -> Seq<char> {
    "<!doctype html>\n<html><head><meta charset=\"utf-8\"><meta name=\"viewport\" content=\"width=device-width,initial-scale=1\">\n<title>Dulac My Camp</title></head>\n<body style=\"margin:0;background:#efe9df;font-family:system-ui,-apple-system,'Segoe UI',sans-serif;\">\n<table role=\"presentation\" width=\"100%\" cellpadding=\"0\" cellspacing=\"0\" style=\"padding:56px 16px;\">\n<tr><td align=\"center\">\n  <table role=\"presentation\" width=\"100%\" cellpadding=\"0\" cellspacing=\"0\" style=\"max-width:460px;border-radius:14px;overflow:hidden;border:1px solid #ddd2c2;\">\n    <tr><td style=\"background:#1a1a1a;padding:20px 26px;font-family:Georgia,'Times New Roman',serif;\">\n      <span style=\"font-size:19px;font-weight:700;color:#2d5a27;\">Dulac</span><span style=\"font-size:19px;font-weight:700;color:#faf7f2;\"> My Camp</span>\n    </td></tr>\n    <tr><td style=\"background:#faf7f2;padding:36px 26px;text-align:center;\">\n      <div style=\"font-size:40px;color:"@ + (if ok { "#2d5a27"@ } else { "#8b5e3c"@ }) + ";line-height:1;\">"@ + (if ok { "&check;"@ } else { "&times;"@ }) + "</div>\n      <h1 style=\"margin:14px 0 10px;font-family:Georgia,'Times New Roman',serif;font-size:22px;color:#1a1a1a;\">"@ + heading + "</h1>\n      <p style=\"margin:0;font-size:15px;line-height:1.6;color:#4a443b;\">"@ + detail + "</p>\n    </td></tr>\n    <tr><td style=\"background:#efe9df;padding:14px 26px;border-top:1px solid #ddd2c2;\">\n      <p style=\"margin:0;font-size:12px;color:#6b6255;\">&copy; 2026 Dulac My Camp</p>\n    </td></tr>\n  </table>\n</td></tr></table>\n</body></html>"@
}

/// Standalone confirmation page rendered after a one-click owner action.
pub fn action_result_page(heading: &str, detail: &str, ok: bool) -> (s: String)
    ensures
        s@ == action_result_page_spec(heading@, detail@, ok),
{
    let mut s = String::new();
    s.append("<!doctype html>\n<html><head><meta charset=\"utf-8\"><meta name=\"viewport\" content=\"width=device-width,initial-scale=1\">\n<title>Dulac My Camp</title></head>\n<body style=\"margin:0;background:#efe9df;font-family:system-ui,-apple-system,'Segoe UI',sans-serif;\">\n<table role=\"presentation\" width=\"100%\" cellpadding=\"0\" cellspacing=\"0\" style=\"padding:56px 16px;\">\n<tr><td align=\"center\">\n  <table role=\"presentation\" width=\"100%\" cellpadding=\"0\" cellspacing=\"0\" style=\"max-width:460px;border-radius:14px;overflow:hidden;border:1px solid #ddd2c2;\">\n    <tr><td style=\"background:#1a1a1a;padding:20px 26px;font-family:Georgia,'Times New Roman',serif;\">\n      <span style=\"font-size:19px;font-weight:700;color:#2d5a27;\">Dulac</span><span style=\"font-size:19px;font-weight:700;color:#faf7f2;\"> My Camp</span>\n    </td></tr>\n    <tr><td style=\"background:#faf7f2;padding:36px 26px;text-align:center;\">\n      <div style=\"font-size:40px;color:");
    if ok {
        s.append("#2d5a27");
    } else {
        s.append("#8b5e3c");
    }
    s.append(";line-height:1;\">");
    if ok {
        s.append("&check;");
    } else {
        s.append("&times;");
    }
    s.append("</div>\n      <h1 style=\"margin:14px 0 10px;font-family:Georgia,'Times New Roman',serif;font-size:22px;color:#1a1a1a;\">");
    s.append(heading);
    s.append("</h1>\n      <p style=\"margin:0;font-size:15px;line-height:1.6;color:#4a443b;\">");
    s.append(detail);
    s.append("</p>\n    </td></tr>\n    <tr><td style=\"background:#efe9df;padding:14px 26px;border-top:1px solid #ddd2c2;\">\n      <p style=\"margin:0;font-size:12px;color:#6b6255;\">&copy; 2026 Dulac My Camp</p>\n    </td></tr>\n  </table>\n</td></tr></table>\n</body></html>");
    proof {
        assert(s@ =~= action_result_page_spec(heading@, detail@, ok));
    }
    s
}

pub open spec fn deny_form_page_spec(action_url: Seq<char>, guest: Seq<char>, dates: Seq<char>) -> Seq<char> {
    "<!doctype html>\n<html><head><meta charset=\"utf-8\"><meta name=\"viewport\" content=\"width=device-width,initial-scale=1\">\n<title>Deny booking — Dulac My Camp</title></head>\n<body style=\"margin:0;background:#efe9df;font-family:system-ui,-apple-system,'Segoe UI',sans-serif;\">\n<table role=\"presentation\" width=\"100%\" cellpadding=\"0\" cellspacing=\"0\" style=\"padding:56px 16px;\">\n<tr><td align=\"center\">\n  <table role=\"presentation\" width=\"100%\" cellpadding=\"0\" cellspacing=\"0\" style=\"max-width:460px;border-radius:14px;overflow:hidden;border:1px solid #ddd2c2;\">\n    <tr><td style=\"background:#1a1a1a;padding:20px 26px;font-family:Georgia,'Times New Roman',serif;\">\n      <span style=\"font-size:19px;font-weight:700;color:#2d5a27;\">Dulac</span><span style=\"font-size:19px;font-weight:700;color:#faf7f2;\"> My Camp</span>\n    </td></tr>\n    <tr><td style=\"background:#faf7f2;padding:30px 26px;\">\n      <h1 style=\"margin:0 0 8px;font-family:Georgia,'Times New Roman',serif;font-size:21px;color:#1a1a1a;\">Deny this request?</h1>\n      <p style=\"margin:0 0 20px;font-size:15px;color:#4a443b;\">"@ + esc_spec(guest) + " &middot; "@ + dates + "</p>\n      <form method=\"post\" action=\""@ + action_url + "\">\n        <label style=\"display:block;font-size:13px;color:#6b6255;margin-bottom:6px;\">Reason (optional — the guest will see this)</label>\n        <textarea name=\"reason\" rows=\"3\" style=\"width:100%;box-sizing:border-box;padding:10px;font-family:system-ui,-apple-system,'Segoe UI',sans-serif;font-size:14px;border:1px solid #ddd2c2;border-radius:8px;background:#fff;color:#1a1a1a;\"></textarea>\n        <button type=\"submit\" style=\"margin-top:16px;width:100%;padding:13px;border:0;border-radius:8px;background:#9b3226;color:#fff;font-size:15px;font-weight:700;cursor:pointer;\">Deny booking</button>\n      </form>\n    </td></tr>\n    <tr><td style=\"background:#efe9df;padding:14px 26px;border-top:1px solid #ddd2c2;\">\n      <p style=\"margin:0;font-size:12px;color:#6b6255;\">&copy; 2026 Dulac My Camp</p>\n    </td></tr>\n  </table>\n</td></tr></table>\n</body></html>"@
}

/// The optional-reason form shown before a one-click denial; the guest's name
/// is escaped like every guest-supplied value.
pub fn deny_form_page(action_url: &str, guest: &str, dates: &str) -> (s: String)
    ensures
        s@ == deny_form_page_spec(action_url@, guest@, dates@),
{
    let mut s = String::new();
    s.append("<!doctype html>\n<html><head><meta charset=\"utf-8\"><meta name=\"viewport\" content=\"width=device-width,initial-scale=1\">\n<title>Deny booking — Dulac My Camp</title></head>\n<body style=\"margin:0;background:#efe9df;font-family:system-ui,-apple-system,'Segoe UI',sans-serif;\">\n<table role=\"presentation\" width=\"100%\" cellpadding=\"0\" cellspacing=\"0\" style=\"padding:56px 16px;\">\n<tr><td align=\"center\">\n  <table role=\"presentation\" width=\"100%\" cellpadding=\"0\" cellspacing=\"0\" style=\"max-width:460px;border-radius:14px;overflow:hidden;border:1px solid #ddd2c2;\">\n    <tr><td style=\"background:#1a1a1a;padding:20px 26px;font-family:Georgia,'Times New Roman',serif;\">\n      <span style=\"font-size:19px;font-weight:700;color:#2d5a27;\">Dulac</span><span style=\"font-size:19px;font-weight:700;color:#faf7f2;\"> My Camp</span>\n    </td></tr>\n    <tr><td style=\"background:#faf7f2;padding:30px 26px;\">\n      <h1 style=\"margin:0 0 8px;font-family:Georgia,'Times New Roman',serif;font-size:21px;color:#1a1a1a;\">Deny this request?</h1>\n      <p style=\"margin:0 0 20px;font-size:15px;color:#4a443b;\">");
    let eg = esc(guest);
    s.append(eg.as_str());
    s.append(" &middot; ");
    s.append(dates);
    s.append("</p>\n      <form method=\"post\" action=\"");
    s.append(action_url);
    s.append("\">\n        <label style=\"display:block;font-size:13px;color:#6b6255;margin-bottom:6px;\">Reason (optional — the guest will see this)</label>\n        <textarea name=\"reason\" rows=\"3\" style=\"width:100%;box-sizing:border-box;padding:10px;font-family:system-ui,-apple-system,'Segoe UI',sans-serif;font-size:14px;border:1px solid #ddd2c2;border-radius:8px;background:#fff;color:#1a1a1a;\"></textarea>\n        <button type=\"submit\" style=\"margin-top:16px;width:100%;padding:13px;border:0;border-radius:8px;background:#9b3226;color:#fff;font-size:15px;font-weight:700;cursor:pointer;\">Deny booking</button>\n      </form>\n    </td></tr>\n    <tr><td style=\"background:#efe9df;padding:14px 26px;border-top:1px solid #ddd2c2;\">\n      <p style=\"margin:0;font-size:12px;color:#6b6255;\">&copy; 2026 Dulac My Camp</p>\n    </td></tr>\n  </table>\n</td></tr></table>\n</body></html>");
    proof {
        assert(s@ =~= deny_form_page_spec(action_url@, guest@, dates@));
    }
    s
}

pub open spec fn actions_row_spec(inner: Seq<char>) -> Seq<char> {
    "<table role=\"presentation\" cellpadding=\"0\" cellspacing=\"0\" style=\"margin:22px 0 4px;\"><tr>"@ + inner + "</tr></table>"@
}

/// The single-button action row under a message.
pub fn actions_row(inner: &str) -> (s: String)
    ensures
        s@ == actions_row_spec(inner@),
{
    let mut s = String::new();
    s.append("<table role=\"presentation\" cellpadding=\"0\" cellspacing=\"0\" style=\"margin:22px 0 4px;\"><tr>");
    s.append(inner);
    s.append("</tr></table>");
    proof {
        assert(s@ =~= actions_row_spec(inner@));
    }
    s
}

pub open spec fn otp_email_subject(code: Seq<char>, ttl_minutes: int) -> Seq<char> {
    "Your Dulac My Camp login code"@
}

pub open spec fn otp_email_body(code: Seq<char>, ttl_minutes: int) -> Seq<char> {
    "<p style=\"margin:0 0 18px;\">Your login code is:</p>\n<p style=\"margin:0 0 18px;font-family:Georgia,'Times New Roman',serif;font-size:38px;letter-spacing:9px;font-weight:700;color:#2d5a27;\">"@ + code + "</p>\n<p style=\"margin:0;color:#6b6255;font-size:14px;\">This code expires in "@ + signed_decimal(ttl_minutes) + " minutes. If you didn't ask for it, you can ignore this email.</p>"@
}

pub open spec fn otp_email_actions(code: Seq<char>, ttl_minutes: int) -> Seq<char> {
    Seq::<char>::empty()
}

pub open spec fn otp_email_text(code: Seq<char>, ttl_minutes: int) -> Seq<char> {
    "Your Dulac My Camp login code\n\nYour login code is: "@ + code + "\n\nThis code expires in "@ + signed_decimal(ttl_minutes) + " minutes.\n\n(c) 2026 Dulac My Camp\n"@
}

pub open spec fn otp_email_spec(code: Seq<char>, ttl_minutes: int) -> (Seq<char>, Seq<char>, Seq<char>) {
    (
        otp_email_subject(code, ttl_minutes),
        layout_spec("Sign in to the camp"@, otp_email_body(code, ttl_minutes), otp_email_actions(code, ttl_minutes)),
        otp_email_text(code, ttl_minutes),
    )
}

/// The login-code email.
pub fn otp_email(code: &str, ttl_minutes: i64) -> (e: Email)
    ensures
        email_view(e) == otp_email_spec(code@, ttl_minutes as int),
{
    let mut subject = String::new();
    subject.append("Your Dulac My Camp login code");
    let mut body = String::new();
    body.append("<p style=\"margin:0 0 18px;\">Your login code is:</p>\n<p style=\"margin:0 0 18px;font-family:Georgia,'Times New Roman',serif;font-size:38px;letter-spacing:9px;font-weight:700;color:#2d5a27;\">");
    body.append(code);
    body.append("</p>\n<p style=\"margin:0;color:#6b6255;font-size:14px;\">This code expires in ");
    push_signed(&mut body, ttl_minutes);
    body.append(" minutes. If you didn't ask for it, you can ignore this email.</p>");
    let mut actions = String::new();
    let mut text = String::new();
    text.append("Your Dulac My Camp login code\n\nYour login code is: ");
    text.append(code);
    text.append("\n\nThis code expires in ");
    push_signed(&mut text, ttl_minutes);
    text.append(" minutes.\n\n(c) 2026 Dulac My Camp\n");
    let html = layout("Sign in to the camp", body.as_str(), actions.as_str());
    proof {
        assert(subject@ =~= otp_email_subject(code@, ttl_minutes as int));
        assert(body@ =~= otp_email_body(code@, ttl_minutes as int));
        assert(actions@ =~= otp_email_actions(code@, ttl_minutes as int));
        assert(text@ =~= otp_email_text(code@, ttl_minutes as int));
    }
    (subject, html, text)
}

pub open spec fn journal_approved_to_guest_subject(app_url: Seq<char>) -> Seq<char> {
    "Your journal entry is live! 📖"@
}

pub open spec fn journal_approved_to_guest_body(app_url: Seq<char>) -> Seq<char> {
    "<p style=\"margin:0 0 14px;\">Your story from your stay at Dulac My Camp is now posted in the camp journal.</p>"@
}

pub open spec fn journal_approved_to_guest_actions(app_url: Seq<char>) -> Seq<char> {
    actions_row_spec(button_spec("View journal"@, app_url + "/journal"@, "#2d5a27"@))
}

pub open spec fn journal_approved_to_guest_text(app_url: Seq<char>) -> Seq<char> {
    "Your journal entry is live!\n\nYour story from your stay at Dulac My Camp is now posted in the camp journal.\n\n"@ + app_url + "/journal\n"@
}

pub open spec fn journal_approved_to_guest_spec(app_url: Seq<char>) -> (Seq<char>, Seq<char>, Seq<char>) {
    (
        journal_approved_to_guest_subject(app_url),
        layout_spec("Story posted"@, journal_approved_to_guest_body(app_url), journal_approved_to_guest_actions(app_url)),
        journal_approved_to_guest_text(app_url),
    )
}

/// Tells a guest their story is live.
pub fn journal_approved_to_guest(app_url: &str) -> (e: Email)
    ensures
        email_view(e) == journal_approved_to_guest_spec(app_url@),
{
    let mut subject = String::new();
    subject.append("Your journal entry is live! 📖");
    let mut body = String::new();
    body.append("<p style=\"margin:0 0 14px;\">Your story from your stay at Dulac My Camp is now posted in the camp journal.</p>");
    let mut actions = String::new();
    let t1 = concat2(app_url, "/journal");
    let t2 = button("View journal", t1.as_str(), "#2d5a27");
    let t2b = actions_row(t2.as_str());
    actions.append(t2b.as_str());
    let mut text = String::new();
    text.append("Your journal entry is live!\n\nYour story from your stay at Dulac My Camp is now posted in the camp journal.\n\n");
    text.append(app_url);
    text.append("/journal\n");
    let html = layout("Story posted", body.as_str(), actions.as_str());
    proof {
        assert(subject@ =~= journal_approved_to_guest_subject(app_url@));
        assert(body@ =~= journal_approved_to_guest_body(app_url@));
        assert(actions@ =~= journal_approved_to_guest_actions(app_url@));
        assert(text@ =~= journal_approved_to_guest_text(app_url@));
    }
    (subject, html, text)
}

/// The reason as shown to the guest: absent when missing or blank.
pub open spec fn shown_reason(reason: Option<Seq<char>>) -> Option<Seq<char>> {
    match reason {
        Some(r) => if trim_spec(r).len() > 0 {
            Some(r)
        } else {
            None
        },
        None => None,
    }
}

pub open spec fn opt_str(o: Option<&str>) -> Option<Seq<char>> {
    match o {
        Some(s) => Some(s@),
        None => None,
    }
}

fn shown(reason: Option<&str>) -> (r: Option<&str>)
    ensures
        opt_str(r) == shown_reason(opt_str(reason)),
{
    match reason {
        Some(r) => if trim(r).unicode_len() > 0 {
            Some(r)
        } else {
            None
        },
        None => None,
    }
}

pub open spec fn journal_rejected_to_guest_subject(reason: Option<Seq<char>>, app_url: Seq<char>) -> Seq<char> {
    "About your journal entry"@
}

pub open spec fn journal_rejected_to_guest_body(reason: Option<Seq<char>>, app_url: Seq<char>) -> Seq<char> {
    "<p style=\"margin:0 0 14px;\">Thanks for sharing your story from the camp. We didn't post this one."@ + (match shown_reason(reason) { Some(r) => " "@ + esc_spec(r), None => Seq::<char>::empty() }) + "</p>\n<p style=\"margin:0;\">Feel free to submit again!</p>"@
}

pub open spec fn journal_rejected_to_guest_actions(reason: Option<Seq<char>>, app_url: Seq<char>) -> Seq<char> {
    actions_row_spec(button_spec("My bookings"@, app_url + "/my-bookings"@, "#2d5a27"@))
}

pub open spec fn journal_rejected_to_guest_text(reason: Option<Seq<char>>, app_url: Seq<char>) -> Seq<char> {
    "About your journal entry\n\nThanks for sharing your story from the camp. We didn't post this one."@ + (match shown_reason(reason) { Some(r) => " "@ + r, None => Seq::<char>::empty() }) + "\n\nFeel free to submit again!\n"@ + app_url + "/my-bookings\n"@
}

pub open spec fn journal_rejected_to_guest_spec(reason: Option<Seq<char>>, app_url: Seq<char>) -> (Seq<char>, Seq<char>, Seq<char>) {
    (
        journal_rejected_to_guest_subject(reason, app_url),
        layout_spec("About your story"@, journal_rejected_to_guest_body(reason, app_url), journal_rejected_to_guest_actions(reason, app_url)),
        journal_rejected_to_guest_text(reason, app_url),
    )
}

/// Tells a guest their story was not posted, warmly.
pub fn journal_rejected_to_guest(reason: Option<&str>, app_url: &str) -> (e: Email)
    ensures
        email_view(e) == journal_rejected_to_guest_spec(opt_str(reason), app_url@),
{
    let mut subject = String::new();
    subject.append("About your journal entry");
    let mut body = String::new();
    body.append("<p style=\"margin:0 0 14px;\">Thanks for sharing your story from the camp. We didn't post this one.");
    match shown(reason) {
        Some(r) => {
            body.append(" ");
            let er = esc(r);
            body.append(er.as_str());
        },
        None => {},
    }
    body.append("</p>\n<p style=\"margin:0;\">Feel free to submit again!</p>");
    let mut actions = String::new();
    let t3 = concat2(app_url, "/my-bookings");
    let t4 = button("My bookings", t3.as_str(), "#2d5a27");
    let t4b = actions_row(t4.as_str());
    actions.append(t4b.as_str());
    let mut text = String::new();
    text.append("About your journal entry\n\nThanks for sharing your story from the camp. We didn't post this one.");
    match shown(reason) {
        Some(r) => {
            text.append(" ");
            text.append(r);
        },
        None => {},
    }
    text.append("\n\nFeel free to submit again!\n");
    text.append(app_url);
    text.append("/my-bookings\n");
    let html = layout("About your story", body.as_str(), actions.as_str());
    proof {
        assert(subject@ =~= journal_rejected_to_guest_subject(opt_str(reason), app_url@));
        assert(body@ =~= journal_rejected_to_guest_body(opt_str(reason), app_url@));
        assert(actions@ =~= journal_rejected_to_guest_actions(opt_str(reason), app_url@));
        assert(text@ =~= journal_rejected_to_guest_text(opt_str(reason), app_url@));
    }
    (subject, html, text)
}

pub open spec fn checkout_notes_to_admin_subject(guest: Seq<char>, check_in: Date, check_out: Date, notes: Seq<char>, app_url: Seq<char>) -> Seq<char> {
    guest + " flagged something at checkout"@
}

pub open spec fn checkout_notes_to_admin_body(guest: Seq<char>, check_in: Date, check_out: Date, notes: Seq<char>, app_url: Seq<char>) -> Seq<char> {
    "<table role=\"presentation\" cellpadding=\"0\" cellspacing=\"0\" style=\"margin:6px 0 16px;\">"@ + row_spec("Guest"@, esc_spec(guest)) + row_spec("Dates"@, pretty_spec(check_in) + " &rarr; "@ + pretty_spec(check_out)) + "</table>\n<p style=\"margin:0 0 6px;font-size:13px;color:#6b6255;\">Note</p>\n<p style=\"margin:0;padding:12px 14px;background:#efe9df;border-left:3px solid #8b5e3c;border-radius:4px;\">"@ + esc_spec(notes) + "</p>"@
}

pub open spec fn checkout_notes_to_admin_actions(guest: Seq<char>, check_in: Date, check_out: Date, notes: Seq<char>, app_url: Seq<char>) -> Seq<char> {
    actions_row_spec(button_spec("Open admin panel"@, app_url + "/admin"@, "#8b5e3c"@))
}

pub open spec fn checkout_notes_to_admin_text(guest: Seq<char>, check_in: Date, check_out: Date, notes: Seq<char>, app_url: Seq<char>) -> Seq<char> {
    guest + " flagged something at checkout\n\nGuest: "@ + guest + "\nDates: "@ + pretty_spec(check_in) + " - "@ + pretty_spec(check_out) + "\n\nNote:\n"@ + notes + "\n\n"@ + app_url + "/admin\n"@
}

pub open spec fn checkout_notes_to_admin_spec(guest: Seq<char>, check_in: Date, check_out: Date, notes: Seq<char>, app_url: Seq<char>) -> (Seq<char>, Seq<char>, Seq<char>) {
    (
        checkout_notes_to_admin_subject(guest, check_in, check_out, notes, app_url),
        layout_spec("Checkout note"@, checkout_notes_to_admin_body(guest, check_in, check_out, notes, app_url), checkout_notes_to_admin_actions(guest, check_in, check_out, notes, app_url)),
        checkout_notes_to_admin_text(guest, check_in, check_out, notes, app_url),
    )
}

/// Sent to the admin when a guest flags something at checkout.
pub fn checkout_notes_to_admin(guest: &str, check_in: Date, check_out: Date, notes: &str, app_url: &str) -> (e: Email)
    ensures
        email_view(e) == checkout_notes_to_admin_spec(guest@, check_in, check_out, notes@, app_url@),
{
    let mut subject = String::new();
    subject.append(guest);
    subject.append(" flagged something at checkout");
    let mut body = String::new();
    body.append("<table role=\"presentation\" cellpadding=\"0\" cellspacing=\"0\" style=\"margin:6px 0 16px;\">");
    let eg = esc(guest);
    let r1 = row("Guest", eg.as_str());
    body.append(r1.as_str());
    let pi = pretty(check_in);
    let po = pretty(check_out);
    let dr = concat3(pi.as_str(), " &rarr; ", po.as_str());
    let r2 = row("Dates", dr.as_str());
    body.append(r2.as_str());
    body.append("</table>\n<p style=\"margin:0 0 6px;font-size:13px;color:#6b6255;\">Note</p>\n<p style=\"margin:0;padding:12px 14px;background:#efe9df;border-left:3px solid #8b5e3c;border-radius:4px;\">");
    let en = esc(notes);
    body.append(en.as_str());
    body.append("</p>");
    let mut actions = String::new();
    let t5 = concat2(app_url, "/admin");
    let t6 = button("Open admin panel", t5.as_str(), "#8b5e3c");
    let t6b = actions_row(t6.as_str());
    actions.append(t6b.as_str());
    let mut text = String::new();
    text.append(guest);
    text.append(" flagged something at checkout\n\nGuest: ");
    text.append(guest);
    text.append("\nDates: ");
    let p1 = pretty(check_in);
    text.append(p1.as_str());
    text.append(" - ");
    let p2 = pretty(check_out);
    text.append(p2.as_str());
    text.append("\n\nNote:\n");
    text.append(notes);
    text.append("\n\n");
    text.append(app_url);
    text.append("/admin\n");
    let html = layout("Checkout note", body.as_str(), actions.as_str());
    proof {
        assert(subject@ =~= checkout_notes_to_admin_subject(guest@, check_in, check_out, notes@, app_url@));
        assert(body@ =~= checkout_notes_to_admin_body(guest@, check_in, check_out, notes@, app_url@));
        assert(actions@ =~= checkout_notes_to_admin_actions(guest@, check_in, check_out, notes@, app_url@));
        assert(text@ =~= checkout_notes_to_admin_text(guest@, check_in, check_out, notes@, app_url@));
    }
    (subject, html, text)
}

pub open spec fn journal_submitted_to_admin_subject(guest: Seq<char>, check_in: Date, check_out: Date, title: Seq<char>, app_url: Seq<char>) -> Seq<char> {
    guest + " submitted a journal entry"@
}

pub open spec fn journal_submitted_to_admin_body(guest: Seq<char>, check_in: Date, check_out: Date, title: Seq<char>, app_url: Seq<char>) -> Seq<char> {
    "<p style=\"margin:0 0 14px;\">A new camp journal story is waiting for review.</p><table role=\"presentation\" cellpadding=\"0\" cellspacing=\"0\" style=\"margin:6px 0 4px;\">"@ + row_spec("Guest"@, esc_spec(guest)) + row_spec("Stay"@, pretty_spec(check_in) + " &rarr; "@ + pretty_spec(check_out)) + row_spec("Title"@, esc_spec(title)) + "</table>"@
}

pub open spec fn journal_submitted_to_admin_actions(guest: Seq<char>, check_in: Date, check_out: Date, title: Seq<char>, app_url: Seq<char>) -> Seq<char> {
    actions_row_spec(button_spec("Review in admin panel"@, app_url + "/admin"@, "#8b5e3c"@))
}

pub open spec fn journal_submitted_to_admin_text(guest: Seq<char>, check_in: Date, check_out: Date, title: Seq<char>, app_url: Seq<char>) -> Seq<char> {
    guest + " submitted a journal entry\n\nGuest: "@ + guest + "\nStay: "@ + pretty_spec(check_in) + " - "@ + pretty_spec(check_out) + "\nTitle: "@ + title + "\n\n"@ + app_url + "/admin\n"@
}

pub open spec fn journal_submitted_to_admin_spec(guest: Seq<char>, check_in: Date, check_out: Date, title: Seq<char>, app_url: Seq<char>) -> (Seq<char>, Seq<char>, Seq<char>) {
    (
        journal_submitted_to_admin_subject(guest, check_in, check_out, title, app_url),
        layout_spec("New journal entry"@, journal_submitted_to_admin_body(guest, check_in, check_out, title, app_url), journal_submitted_to_admin_actions(guest, check_in, check_out, title, app_url)),
        journal_submitted_to_admin_text(guest, check_in, check_out, title, app_url),
    )
}

/// Sent to the admin when a guest submits a story.
pub fn journal_submitted_to_admin(guest: &str, check_in: Date, check_out: Date, title: &str, app_url: &str) -> (e: Email)
    ensures
        email_view(e) == journal_submitted_to_admin_spec(guest@, check_in, check_out, title@, app_url@),
{
    let mut subject = String::new();
    subject.append(guest);
    subject.append(" submitted a journal entry");
    let mut body = String::new();
    body.append("<p style=\"margin:0 0 14px;\">A new camp journal story is waiting for review.</p><table role=\"presentation\" cellpadding=\"0\" cellspacing=\"0\" style=\"margin:6px 0 4px;\">");
    let eg = esc(guest);
    let r1 = row("Guest", eg.as_str());
    body.append(r1.as_str());
    let pi = pretty(check_in);
    let po = pretty(check_out);
    let dr = concat3(pi.as_str(), " &rarr; ", po.as_str());
    let r2 = row("Stay", dr.as_str());
    body.append(r2.as_str());
    let et = esc(title);
    let r3 = row("Title", et.as_str());
    body.append(r3.as_str());
    body.append("</table>");
    let mut actions = String::new();
    let t7 = concat2(app_url, "/admin");
    let t8 = button("Review in admin panel", t7.as_str(), "#8b5e3c");
    let t8b = actions_row(t8.as_str());
    actions.append(t8b.as_str());
    let mut text = String::new();
    text.append(guest);
    text.append(" submitted a journal entry\n\nGuest: ");
    text.append(guest);
    text.append("\nStay: ");
    let p1 = pretty(check_in);
    text.append(p1.as_str());
    text.append(" - ");
    let p2 = pretty(check_out);
    text.append(p2.as_str());
    text.append("\nTitle: ");
    text.append(title);
    text.append("\n\n");
    text.append(app_url);
    text.append("/admin\n");
    let html = layout("New journal entry", body.as_str(), actions.as_str());
    proof {
        assert(subject@ =~= journal_submitted_to_admin_subject(guest@, check_in, check_out, title@, app_url@));
        assert(body@ =~= journal_submitted_to_admin_body(guest@, check_in, check_out, title@, app_url@));
        assert(actions@ =~= journal_submitted_to_admin_actions(guest@, check_in, check_out, title@, app_url@));
        assert(text@ =~= journal_submitted_to_admin_text(guest@, check_in, check_out, title@, app_url@));
    }
    (subject, html, text)
}

fn opt_string_str(o: &Option<String>) -> (r: Option<&str>)
    ensures
        opt_str(r) == crate::text::opt_view(*o),
{
    match o {
        Some(s) => Some(s.as_str()),
        None => None,
    }
}

pub open spec fn booking_rows_spec(b: Booking, guest: Seq<char>) -> Seq<char> {
    "<table role=\"presentation\" cellpadding=\"0\" cellspacing=\"0\" style=\"margin:6px 0 4px;\">"@ + row_spec("Guest"@, esc_spec(guest)) + row_spec("Dates"@, pretty_spec(b.check_in) + " &rarr; "@ + pretty_spec(b.check_out) + " <span style=\"font-weight:400;color:#6b6255;\">("@ + signed_decimal(nights_spec(b)) + " "@ + (if nights_spec(b) == 1 { "night"@ } else { "nights"@ }) + ")</span>"@) + row_spec("Adults"@, signed_decimal(b.guest_count_adults as int)) + row_spec("Kids"@, signed_decimal(b.guest_count_kids as int)) + row_spec("Pets"@, if b.has_pets { "Yes"@ } else { "No"@ }) + (match shown_reason(crate::text::opt_view(b.other_requests)) { Some(r) => row_spec("Requests"@, esc_spec(r)), None => Seq::<char>::empty() }) + "</table>"@
}

/// The booking facts shared by the owner and admin notification emails.
pub fn booking_rows(b: &Booking, guest: &str) -> (s: String)
    ensures
        s@ == booking_rows_spec(*b, guest@),
{
    let mut s = String::new();
    s.append("<table role=\"presentation\" cellpadding=\"0\" cellspacing=\"0\" style=\"margin:6px 0 4px;\">");
    let eg = esc(guest);
    let r1 = row("Guest", eg.as_str());
    s.append(r1.as_str());
    let n = nights(b);
    let mut dates = pretty(b.check_in);
    dates.append(" &rarr; ");
    let po = pretty(b.check_out);
    dates.append(po.as_str());
    dates.append(" <span style=\"font-weight:400;color:#6b6255;\">(");
    push_signed(&mut dates, n);
    dates.append(" ");
    if n == 1 {
        dates.append("night");
    } else {
        dates.append("nights");
    }
    dates.append(")</span>");
    let r2 = row("Dates", dates.as_str());
    s.append(r2.as_str());
    let na = crate::text::signed_string(b.guest_count_adults as i64);
    let r3 = row("Adults", na.as_str());
    s.append(r3.as_str());
    let nk = crate::text::signed_string(b.guest_count_kids as i64);
    let r4 = row("Kids", nk.as_str());
    s.append(r4.as_str());
    let r5 = row("Pets", if b.has_pets { "Yes" } else { "No" });
    s.append(r5.as_str());
    match shown(opt_string_str(&b.other_requests)) {
        Some(r) => {
            let er = esc(r);
            let r6 = row("Requests", er.as_str());
            s.append(r6.as_str());
        },
        None => {},
    }
    s.append("</table>");
    proof {
        assert(s@ =~= booking_rows_spec(*b, guest@));
    }
    s
}

pub open spec fn booking_text_spec(b: Booking, guest: Seq<char>) -> Seq<char> {
    "Guest: "@ + guest + "\nDates: "@ + pretty_spec(b.check_in) + " - "@ + pretty_spec(b.check_out) + " ("@ + signed_decimal(nights_spec(b)) + " nights)\nAdults: "@ + signed_decimal(b.guest_count_adults as int) + "  Kids: "@ + signed_decimal(b.guest_count_kids as int) + "\nPets: "@ + (if b.has_pets { "Yes"@ } else { "No"@ }) + "\n"@ + (match shown_reason(crate::text::opt_view(b.other_requests)) { Some(r) => "Requests: "@ + r + "\n"@, None => Seq::<char>::empty() })
}

/// The plain-text twin of the booking facts.
pub fn booking_text(b: &Booking, guest: &str) -> (s: String)
    ensures
        s@ == booking_text_spec(*b, guest@),
{
    let mut s = String::new();
    s.append("Guest: ");
    s.append(guest);
    s.append("\nDates: ");
    let p1 = pretty(b.check_in);
    s.append(p1.as_str());
    s.append(" - ");
    let p2 = pretty(b.check_out);
    s.append(p2.as_str());
    s.append(" (");
    let n = nights(b);
    push_signed(&mut s, n);
    s.append(" nights)\nAdults: ");
    push_signed(&mut s, b.guest_count_adults as i64);
    s.append("  Kids: ");
    push_signed(&mut s, b.guest_count_kids as i64);
    s.append("\nPets: ");
    if b.has_pets {
        s.append("Yes");
    } else {
        s.append("No");
    }
    s.append("\n");
    match shown(opt_string_str(&b.other_requests)) {
        Some(r) => {
            s.append("Requests: ");
            s.append(r);
            s.append("\n");
        },
        None => {},
    }
    proof {
        assert(s@ =~= booking_text_spec(*b, guest@));
    }
    s
}

pub open spec fn booking_request_to_owner_subject(b: Booking, guest: Seq<char>, approve_url: Seq<char>, deny_url: Seq<char>) -> Seq<char> {
    guest + " requested dates at the camp"@
}

pub open spec fn booking_request_to_owner_body(b: Booking, guest: Seq<char>, approve_url: Seq<char>, deny_url: Seq<char>) -> Seq<char> {
    "<p style=\"margin:0 0 14px;\">A new request came in for the camp.</p>"@ + booking_rows_spec(b, guest)
}

pub open spec fn booking_request_to_owner_actions(b: Booking, guest: Seq<char>, approve_url: Seq<char>, deny_url: Seq<char>) -> Seq<char> {
    "<table role=\"presentation\" cellpadding=\"0\" cellspacing=\"0\" style=\"margin:24px 0 10px;\"><tr>"@ + button_spec("Approve"@, approve_url, "#2d5a27"@) + button_spec("Deny"@, deny_url, "#9b3226"@) + "</tr></table>\n<p style=\"margin:6px 0 0;font-size:12px;color:#6b6255;\">Buttons are valid for 48 hours.</p>"@
}

pub open spec fn booking_request_to_owner_text(b: Booking, guest: Seq<char>, approve_url: Seq<char>, deny_url: Seq<char>) -> Seq<char> {
    guest + " requested dates at the camp\n\n"@ + booking_text_spec(b, guest) + "\nApprove: "@ + approve_url + "\nDeny: "@ + deny_url + "\n\nButtons are valid for 48 hours.\n"@
}

pub open spec fn booking_request_to_owner_spec(b: Booking, guest: Seq<char>, approve_url: Seq<char>, deny_url: Seq<char>) -> (Seq<char>, Seq<char>, Seq<char>) {
    (
        booking_request_to_owner_subject(b, guest, approve_url, deny_url),
        layout_spec("New booking request"@, booking_request_to_owner_body(b, guest, approve_url, deny_url), booking_request_to_owner_actions(b, guest, approve_url, deny_url)),
        booking_request_to_owner_text(b, guest, approve_url, deny_url),
    )
}

/// Sent to the camp owner: the only email with action buttons.
pub fn booking_request_to_owner(b: &Booking, guest: &str, approve_url: &str, deny_url: &str) -> (e: Email)
    ensures
        email_view(e) == booking_request_to_owner_spec(*b, guest@, approve_url@, deny_url@),
{
    let mut subject = String::new();
    subject.append(guest);
    subject.append(" requested dates at the camp");
    let mut body = String::new();
    body.append("<p style=\"margin:0 0 14px;\">A new request came in for the camp.</p>");
    let br = booking_rows(b, guest);
    body.append(br.as_str());
    let mut actions = String::new();
    actions.append("<table role=\"presentation\" cellpadding=\"0\" cellspacing=\"0\" style=\"margin:24px 0 10px;\"><tr>");
    let ba = button("Approve", approve_url, "#2d5a27");
    actions.append(ba.as_str());
    let bd = button("Deny", deny_url, "#9b3226");
    actions.append(bd.as_str());
    actions.append("</tr></table>\n<p style=\"margin:6px 0 0;font-size:12px;color:#6b6255;\">Buttons are valid for 48 hours.</p>");
    let mut text = String::new();
    text.append(guest);
    text.append(" requested dates at the camp\n\n");
    let bt = booking_text(b, guest);
    text.append(bt.as_str());
    text.append("\nApprove: ");
    text.append(approve_url);
    text.append("\nDeny: ");
    text.append(deny_url);
    text.append("\n\nButtons are valid for 48 hours.\n");
    let html = layout("New booking request", body.as_str(), actions.as_str());
    proof {
        assert(subject@ =~= booking_request_to_owner_subject(*b, guest@, approve_url@, deny_url@));
        assert(body@ =~= booking_request_to_owner_body(*b, guest@, approve_url@, deny_url@));
        assert(actions@ =~= booking_request_to_owner_actions(*b, guest@, approve_url@, deny_url@));
        assert(text@ =~= booking_request_to_owner_text(*b, guest@, approve_url@, deny_url@));
    }
    (subject, html, text)
}

pub open spec fn booking_request_to_admin_subject(b: Booking, guest: Seq<char>, app_url: Seq<char>) -> Seq<char> {
    "New booking request from "@ + guest
}

pub open spec fn booking_request_to_admin_body(b: Booking, guest: Seq<char>, app_url: Seq<char>) -> Seq<char> {
    "<p style=\"margin:0 0 14px;\">The owner has been emailed for approval. This copy is for your records.</p>"@ + booking_rows_spec(b, guest)
}

pub open spec fn booking_request_to_admin_actions(b: Booking, guest: Seq<char>, app_url: Seq<char>) -> Seq<char> {
    actions_row_spec(button_spec("Open admin panel"@, app_url + "/admin"@, "#8b5e3c"@))
}

pub open spec fn booking_request_to_admin_text(b: Booking, guest: Seq<char>, app_url: Seq<char>) -> Seq<char> {
    "New booking request from "@ + guest + "\n\n"@ + booking_text_spec(b, guest) + "\nAdmin panel: "@ + app_url + "/admin\n"@
}

pub open spec fn booking_request_to_admin_spec(b: Booking, guest: Seq<char>, app_url: Seq<char>) -> (Seq<char>, Seq<char>, Seq<char>) {
    (
        booking_request_to_admin_subject(b, guest, app_url),
        layout_spec("New booking request"@, booking_request_to_admin_body(b, guest, app_url), booking_request_to_admin_actions(b, guest, app_url)),
        booking_request_to_admin_text(b, guest, app_url),
    )
}

/// Informational copy for the admin: no action buttons.
pub fn booking_request_to_admin(b: &Booking, guest: &str, app_url: &str) -> (e: Email)
    ensures
        email_view(e) == booking_request_to_admin_spec(*b, guest@, app_url@),
{
    let mut subject = String::new();
    subject.append("New booking request from ");
    subject.append(guest);
    let mut body = String::new();
    body.append("<p style=\"margin:0 0 14px;\">The owner has been emailed for approval. This copy is for your records.</p>");
    let br = booking_rows(b, guest);
    body.append(br.as_str());
    let mut actions = String::new();
    let t9 = concat2(app_url, "/admin");
    let t10 = button("Open admin panel", t9.as_str(), "#8b5e3c");
    let t10b = actions_row(t10.as_str());
    actions.append(t10b.as_str());
    let mut text = String::new();
    text.append("New booking request from ");
    text.append(guest);
    text.append("\n\n");
    let bt = booking_text(b, guest);
    text.append(bt.as_str());
    text.append("\nAdmin panel: ");
    text.append(app_url);
    text.append("/admin\n");
    let html = layout("New booking request", body.as_str(), actions.as_str());
    proof {
        assert(subject@ =~= booking_request_to_admin_subject(*b, guest@, app_url@));
        assert(body@ =~= booking_request_to_admin_body(*b, guest@, app_url@));
        assert(actions@ =~= booking_request_to_admin_actions(*b, guest@, app_url@));
        assert(text@ =~= booking_request_to_admin_text(*b, guest@, app_url@));
    }
    (subject, html, text)
}

pub open spec fn booking_pending_to_guest_subject(b: Booking, app_url: Seq<char>) -> Seq<char> {
    "Booking request received — Dulac My Camp"@
}

pub open spec fn booking_pending_to_guest_body(b: Booking, app_url: Seq<char>) -> Seq<char> {
    "<p style=\"margin:0 0 14px;\">We received your booking request for <strong>"@ + pretty_spec(b.check_in) + " &rarr; "@ + pretty_spec(b.check_out) + "</strong>. The owner will review it shortly and you'll hear back soon!</p>"@
}

pub open spec fn booking_pending_to_guest_actions(b: Booking, app_url: Seq<char>) -> Seq<char> {
    actions_row_spec(button_spec("View my bookings"@, app_url + "/my-bookings"@, "#2d5a27"@))
}

pub open spec fn booking_pending_to_guest_text(b: Booking, app_url: Seq<char>) -> Seq<char> {
    "Booking request received\n\nWe received your booking request for "@ + pretty_spec(b.check_in) + " - "@ + pretty_spec(b.check_out) + ". The owner will review it shortly and you'll hear back soon!\n\n"@ + app_url + "/my-bookings\n"@
}

pub open spec fn booking_pending_to_guest_spec(b: Booking, app_url: Seq<char>) -> (Seq<char>, Seq<char>, Seq<char>) {
    (
        booking_pending_to_guest_subject(b, app_url),
        layout_spec("Request received"@, booking_pending_to_guest_body(b, app_url), booking_pending_to_guest_actions(b, app_url)),
        booking_pending_to_guest_text(b, app_url),
    )
}

/// Tells a guest their request arrived.
pub fn booking_pending_to_guest(b: &Booking, app_url: &str) -> (e: Email)
    ensures
        email_view(e) == booking_pending_to_guest_spec(*b, app_url@),
{
    let mut subject = String::new();
    subject.append("Booking request received — Dulac My Camp");
    let mut body = String::new();
    body.append("<p style=\"margin:0 0 14px;\">We received your booking request for <strong>");
    let p1 = pretty(b.check_in);
    body.append(p1.as_str());
    body.append(" &rarr; ");
    let p2 = pretty(b.check_out);
    body.append(p2.as_str());
    body.append("</strong>. The owner will review it shortly and you'll hear back soon!</p>");
    let mut actions = String::new();
    let t11 = concat2(app_url, "/my-bookings");
    let t12 = button("View my bookings", t11.as_str(), "#2d5a27");
    let t12b = actions_row(t12.as_str());
    actions.append(t12b.as_str());
    let mut text = String::new();
    text.append("Booking request received\n\nWe received your booking request for ");
    let p1 = pretty(b.check_in);
    text.append(p1.as_str());
    text.append(" - ");
    let p2 = pretty(b.check_out);
    text.append(p2.as_str());
    text.append(". The owner will review it shortly and you'll hear back soon!\n\n");
    text.append(app_url);
    text.append("/my-bookings\n");
    let html = layout("Request received", body.as_str(), actions.as_str());
    proof {
        assert(subject@ =~= booking_pending_to_guest_subject(*b, app_url@));
        assert(body@ =~= booking_pending_to_guest_body(*b, app_url@));
        assert(actions@ =~= booking_pending_to_guest_actions(*b, app_url@));
        assert(text@ =~= booking_pending_to_guest_text(*b, app_url@));
    }
    (subject, html, text)
}

pub open spec fn booking_denied_to_guest_subject(b: Booking, reason: Option<Seq<char>>, app_url: Seq<char>) -> Seq<char> {
    "Booking update — Dulac My Camp"@
}

pub open spec fn booking_denied_to_guest_body(b: Booking, reason: Option<Seq<char>>, app_url: Seq<char>) -> Seq<char> {
    "<p style=\"margin:0 0 14px;\">Unfortunately your booking request for <strong>"@ + pretty_spec(b.check_in) + " &rarr; "@ + pretty_spec(b.check_out) + "</strong> was not approved.</p>\n"@ + (match shown_reason(reason) { Some(r) => "<p style=\"margin:0 0 14px;padding:12px 14px;background:#efe9df;border-left:3px solid #8b5e3c;border-radius:4px;\">"@ + esc_spec(r) + "</p>"@, None => Seq::<char>::empty() }) + "\n<p style=\"margin:0;\">Feel free to request different dates!</p>"@
}

pub open spec fn booking_denied_to_guest_actions(b: Booking, reason: Option<Seq<char>>, app_url: Seq<char>) -> Seq<char> {
    actions_row_spec(button_spec("Pick new dates"@, app_url + "/book"@, "#2d5a27"@))
}

pub open spec fn booking_denied_to_guest_text(b: Booking, reason: Option<Seq<char>>, app_url: Seq<char>) -> Seq<char> {
    "Booking update\n\nUnfortunately your booking request for "@ + pretty_spec(b.check_in) + " - "@ + pretty_spec(b.check_out) + " was not approved.\n"@ + (match shown_reason(reason) { Some(r) => "\nReason: "@ + r + "\n"@, None => Seq::<char>::empty() }) + "\nFeel free to request different dates! "@ + app_url + "/book\n"@
}

pub open spec fn booking_denied_to_guest_spec(b: Booking, reason: Option<Seq<char>>, app_url: Seq<char>) -> (Seq<char>, Seq<char>, Seq<char>) {
    (
        booking_denied_to_guest_subject(b, reason, app_url),
        layout_spec("Booking update"@, booking_denied_to_guest_body(b, reason, app_url), booking_denied_to_guest_actions(b, reason, app_url)),
        booking_denied_to_guest_text(b, reason, app_url),
    )
}

/// Tells a guest their request was not approved, with the reason when one was given.
pub fn booking_denied_to_guest(b: &Booking, reason: Option<&str>, app_url: &str) -> (e: Email)
    ensures
        email_view(e) == booking_denied_to_guest_spec(*b, opt_str(reason), app_url@),
{
    let mut subject = String::new();
    subject.append("Booking update — Dulac My Camp");
    let mut body = String::new();
    body.append("<p style=\"margin:0 0 14px;\">Unfortunately your booking request for <strong>");
    let p1 = pretty(b.check_in);
    body.append(p1.as_str());
    body.append(" &rarr; ");
    let p2 = pretty(b.check_out);
    body.append(p2.as_str());
    body.append("</strong> was not approved.</p>\n");
    match shown(reason) {
        Some(r) => {
            body.append("<p style=\"margin:0 0 14px;padding:12px 14px;background:#efe9df;border-left:3px solid #8b5e3c;border-radius:4px;\">");
            let er = esc(r);
            body.append(er.as_str());
            body.append("</p>");
        },
        None => {},
    }
    body.append("\n<p style=\"margin:0;\">Feel free to request different dates!</p>");
    let mut actions = String::new();
    let t13 = concat2(app_url, "/book");
    let t14 = button("Pick new dates", t13.as_str(), "#2d5a27");
    let t14b = actions_row(t14.as_str());
    actions.append(t14b.as_str());
    let mut text = String::new();
    text.append("Booking update\n\nUnfortunately your booking request for ");
    let p1 = pretty(b.check_in);
    text.append(p1.as_str());
    text.append(" - ");
    let p2 = pretty(b.check_out);
    text.append(p2.as_str());
    text.append(" was not approved.\n");
    match shown(reason) {
        Some(r) => {
            text.append("\nReason: ");
            text.append(r);
            text.append("\n");
        },
        None => {},
    }
    text.append("\nFeel free to request different dates! ");
    text.append(app_url);
    text.append("/book\n");
    let html = layout("Booking update", body.as_str(), actions.as_str());
    proof {
        assert(subject@ =~= booking_denied_to_guest_subject(*b, opt_str(reason), app_url@));
        assert(body@ =~= booking_denied_to_guest_body(*b, opt_str(reason), app_url@));
        assert(actions@ =~= booking_denied_to_guest_actions(*b, opt_str(reason), app_url@));
        assert(text@ =~= booking_denied_to_guest_text(*b, opt_str(reason), app_url@));
    }
    (subject, html, text)
}

pub open spec fn booking_cancelled_notice_subject(b: Booking, guest: Seq<char>) -> Seq<char> {
    guest + " cancelled a camp booking"@
}

pub open spec fn booking_cancelled_notice_body(b: Booking, guest: Seq<char>) -> Seq<char> {
    "<p style=\"margin:0 0 14px;\">This booking has been cancelled and the dates are free again.</p>"@ + booking_rows_spec(b, guest)
}

pub open spec fn booking_cancelled_notice_actions(b: Booking, guest: Seq<char>) -> Seq<char> {
    Seq::<char>::empty()
}

pub open spec fn booking_cancelled_notice_text(b: Booking, guest: Seq<char>) -> Seq<char> {
    guest + " cancelled a camp booking\n\n"@ + booking_text_spec(b, guest)
}

pub open spec fn booking_cancelled_notice_spec(b: Booking, guest: Seq<char>) -> (Seq<char>, Seq<char>, Seq<char>) {
    (
        booking_cancelled_notice_subject(b, guest),
        layout_spec("Booking cancelled"@, booking_cancelled_notice_body(b, guest), booking_cancelled_notice_actions(b, guest)),
        booking_cancelled_notice_text(b, guest),
    )
}

/// Sent to the owner and admin when a guest cancels.
pub fn booking_cancelled_notice(b: &Booking, guest: &str) -> (e: Email)
    ensures
        email_view(e) == booking_cancelled_notice_spec(*b, guest@),
{
    let mut subject = String::new();
    subject.append(guest);
    subject.append(" cancelled a camp booking");
    let mut body = String::new();
    body.append("<p style=\"margin:0 0 14px;\">This booking has been cancelled and the dates are free again.</p>");
    let br = booking_rows(b, guest);
    body.append(br.as_str());
    let mut actions = String::new();
    let mut text = String::new();
    text.append(guest);
    text.append(" cancelled a camp booking\n\n");
    let bt = booking_text(b, guest);
    text.append(bt.as_str());
    let html = layout("Booking cancelled", body.as_str(), actions.as_str());
    proof {
        assert(subject@ =~= booking_cancelled_notice_subject(*b, guest@));
        assert(body@ =~= booking_cancelled_notice_body(*b, guest@));
        assert(actions@ =~= booking_cancelled_notice_actions(*b, guest@));
        assert(text@ =~= booking_cancelled_notice_text(*b, guest@));
    }
    (subject, html, text)
}

pub open spec fn item_pairs(items: Seq<(String, String)>) -> Seq<(Seq<char>, Seq<char>)> {
    items.map_values(|p: (String, String)| (p.0@, p.1@))
}

/// The check-in items as HTML blocks, in order.
pub open spec fn checkin_items_html(items: Seq<(Seq<char>, Seq<char>)>) -> Seq<char>
    decreases items.len(),
{
    if items.len() == 0 {
        Seq::empty()
    } else {
        checkin_items_html(items.drop_last()) + "<div style=\"margin:0 0 14px;\"><p style=\"margin:0 0 3px;font-weight:700;color:#1a1a1a;\">"@ + esc_spec(items.last().0) + "</p><p style=\"margin:0;color:#4a443b;\">"@ + esc_spec(
            items.last().1,
        ) + "</p></div>"@
    }
}

/// The check-in items as plain text, in order.
pub open spec fn checkin_items_text(items: Seq<(Seq<char>, Seq<char>)>) -> Seq<char>
    decreases items.len(),
{
    if items.len() == 0 {
        Seq::empty()
    } else {
        checkin_items_text(items.drop_last()) + items.last().0 + "\n"@ + items.last().1 + "\n\n"@
    }
}

pub open spec fn booking_confirmed_to_guest_body(b: Booking, items: Seq<(Seq<char>, Seq<char>)>) -> Seq<char> {
    "<p style=\"margin:0 0 14px;\">Great news! Your booking at Dulac My Camp has been approved.</p>\n<p style=\"margin:0 0 14px;font-size:17px;\"><strong>"@ + pretty_spec(b.check_in) + " &rarr; "@ + pretty_spec(b.check_out) + "</strong></p>\n<p style=\"margin:0;\">See you at the camp!</p>"@ + if items.len() > 0 {
        "<hr style=\"margin:20px 0;border:none;border-top:1px solid #ddd2c2;\">\n<p style=\"margin:0 0 14px;font-weight:700;color:#1a1a1a;\">Here's what you need for your stay:</p>\n"@ + checkin_items_html(items) + "\n<p style=\"margin:0;color:#6b6255;font-size:14px;\">You can also find this anytime by logging in and visiting My Stay.</p>"@
    } else {
        Seq::empty()
    }
}

pub open spec fn booking_confirmed_to_guest_text(b: Booking, items: Seq<(Seq<char>, Seq<char>)>) -> Seq<char> {
    "Your camp booking is confirmed!\n\nGreat news! Your booking at Dulac My Camp has been approved.\nDates: "@ + pretty_spec(b.check_in) + " - "@ + pretty_spec(b.check_out) + "\n\nSee you at the camp!\n"@ + if items.len() > 0 {
        "\nHere's what you need for your stay:\n\n"@ + checkin_items_text(items) + "You can also find this anytime by logging in and visiting My Stay.\n"@
    } else {
        Seq::empty()
    }
}

pub open spec fn booking_confirmed_to_guest_spec(b: Booking, items: Seq<(Seq<char>, Seq<char>)>, app_url: Seq<char>) -> (Seq<char>, Seq<char>, Seq<char>) {
    (
        "Your camp booking is confirmed! 🎣"@,
        layout_spec(
            "Booking confirmed"@,
            booking_confirmed_to_guest_body(b, items),
            actions_row_spec(button_spec("View my bookings"@, app_url + "/my-bookings"@, "#2d5a27"@)),
        ),
        booking_confirmed_to_guest_text(b, items),
    )
}

/// Tells a guest their stay is confirmed, with the current check-in details.
pub fn booking_confirmed_to_guest(b: &Booking, checkin_items: &[(String, String)], app_url: &str) -> (e: Email)
    ensures
        email_view(e) == booking_confirmed_to_guest_spec(*b, item_pairs(checkin_items@), app_url@),
{
    let ghost items = item_pairs(checkin_items@);
    let mut body = String::new();
    body.append("<p style=\"margin:0 0 14px;\">Great news! Your booking at Dulac My Camp has been approved.</p>\n<p style=\"margin:0 0 14px;font-size:17px;\"><strong>");
    let p1 = pretty(b.check_in);
    body.append(p1.as_str());
    body.append(" &rarr; ");
    let p2 = pretty(b.check_out);
    body.append(p2.as_str());
    body.append("</strong></p>\n<p style=\"margin:0;\">See you at the camp!</p>");
    let mut text = String::new();
    text.append("Your camp booking is confirmed!\n\nGreat news! Your booking at Dulac My Camp has been approved.\nDates: ");
    text.append(p1.as_str());
    text.append(" - ");
    text.append(p2.as_str());
    text.append("\n\nSee you at the camp!\n");
    let ghost body_base = body@;
    let ghost text_base = text@;
    if checkin_items.len() > 0 {
        let mut items_html = String::new();
        let mut items_text = String::new();
        let mut i: usize = 0;
        while i < checkin_items.len()
            invariant
                i <= checkin_items@.len(),
                items == item_pairs(checkin_items@),
                items_html@ == checkin_items_html(items.subrange(0, i as int)),
                items_text@ == checkin_items_text(items.subrange(0, i as int)),
            decreases checkin_items@.len() - i,
        {
            proof {
                assert(items.subrange(0, i + 1).drop_last() =~= items.subrange(0, i as int));
                assert(items.subrange(0, i + 1).last() == items[i as int]);
            }
            let (title, item_body) = &checkin_items[i];
            items_html.append("<div style=\"margin:0 0 14px;\"><p style=\"margin:0 0 3px;font-weight:700;color:#1a1a1a;\">");
            let et = esc(title.as_str());
            items_html.append(et.as_str());
            items_html.append("</p><p style=\"margin:0;color:#4a443b;\">");
            let eb = esc(item_body.as_str());
            items_html.append(eb.as_str());
            items_html.append("</p></div>");
            items_text.append(title.as_str());
            items_text.append("\n");
            items_text.append(item_body.as_str());
            items_text.append("\n\n");
            i = i + 1;
        }
        proof {
            assert(items.subrange(0, items.len() as int) =~= items);
        }
        body.append("<hr style=\"margin:20px 0;border:none;border-top:1px solid #ddd2c2;\">\n<p style=\"margin:0 0 14px;font-weight:700;color:#1a1a1a;\">Here's what you need for your stay:</p>\n");
        body.append(items_html.as_str());
        body.append("\n<p style=\"margin:0;color:#6b6255;font-size:14px;\">You can also find this anytime by logging in and visiting My Stay.</p>");
        text.append("\nHere's what you need for your stay:\n\n");
        text.append(items_text.as_str());
        text.append("You can also find this anytime by logging in and visiting My Stay.\n");
    }
    let url = concat2(app_url, "/my-bookings");
    let bt = button("View my bookings", url.as_str(), "#2d5a27");
    let actions = actions_row(bt.as_str());
    let html = layout("Booking confirmed", body.as_str(), actions.as_str());
    proof {
        assert(body@ =~= booking_confirmed_to_guest_body(*b, items));
        assert(text@ =~= booking_confirmed_to_guest_text(*b, items));
    }
    (String::from_str("Your camp booking is confirmed! 🎣"), html, text)
}

} // verus!
