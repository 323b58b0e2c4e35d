//! The public landing page's content and the guest photo album: upload
//! rules for the site's images, who may see the album link, and what an
//! admin may store.

use crate::error::{AppError, ErrorKind};
use crate::text::{cleaned, opt_view, starts_with, str_eq, trim, trim_spec};
use vstd::prelude::*;

verus! {

/// The hard cap on a single uploaded site image.
pub const MAX_IMAGE_BYTES: usize = 8388608;

/// The body limit on upload routes, comfortably above [`MAX_IMAGE_BYTES`].
pub const UPLOAD_REQUEST_LIMIT: usize = 25165824;

/// The extension an accepted image type is stored under.
pub open spec fn ext_for(content_type: Seq<char>) -> Option<Seq<char>> {
    if content_type == "image/jpeg"@ {
        Some("jpg"@)
    } else if content_type == "image/png"@ {
        Some("png"@)
    } else if content_type == "image/webp"@ {
        Some("webp"@)
    } else {
        None
    }
}

pub fn ext_for_content_type(content_type: &str) -> (r: Option<&'static str>)
    ensures
        match r {
            Some(e) => ext_for(content_type@) == Some(e@),
            None => ext_for(content_type@) is None,
        },
{
    if str_eq(content_type, "image/jpeg") {
        Some("jpg")
    } else if str_eq(content_type, "image/png") {
        Some("png")
    } else if str_eq(content_type, "image/webp") {
        Some("webp")
    } else {
        None
    }
}

/// Checks an upload's type and size, returning the extension to save it under.
pub fn validate_upload(content_type: &str, size: usize) -> (r: Result<&'static str, AppError>)
    ensures
        ext_for(content_type@) is None ==> r is Err && r->Err_0@ == (
            ErrorKind::BadRequest,
            "Only JPG, PNG, and WEBP images are allowed."@,
        ),
        ext_for(content_type@) is Some && size > MAX_IMAGE_BYTES ==> r is Err && r->Err_0@ == (
            ErrorKind::BadRequest,
            "Images must be 8MB or smaller."@,
        ),
        ext_for(content_type@) is Some && size <= MAX_IMAGE_BYTES ==> (r matches Ok(e) && Some(e@)
            == ext_for(content_type@)),
{
    let ext = match ext_for_content_type(content_type) {
        Some(e) => e,
        None => {
            return Err(AppError::new(ErrorKind::BadRequest, "Only JPG, PNG, and WEBP images are allowed."));
        },
    };
    if size > MAX_IMAGE_BYTES {
        return Err(AppError::new(ErrorKind::BadRequest, "Images must be 8MB or smaller."));
    }
    Ok(ext)
}

/// The album is for anyone who has ever had a stay approved: no date, no
/// checkout state, nothing that expires.
pub fn grants_photos_access(status: &str) -> (b: bool)
    ensures
        b == (status@ == "approved"@),
{
    str_eq(status, "approved")
}

/// Whether any of a user's booking statuses grants album access.
pub fn has_access(statuses: &[&str]) -> (b: bool)
    ensures
        b == exists|i: int| 0 <= i < statuses@.len() && #[trigger] statuses@[i]@ == "approved"@,
{
    let mut i: usize = 0;
    while i < statuses.len()
        invariant
            i <= statuses@.len(),
            forall|j: int| 0 <= j < i ==> #[trigger] statuses@[j]@ != "approved"@,
        decreases statuses@.len() - i,
    {
        if grants_photos_access(statuses[i]) {
            return true;
        }
        i = i + 1;
    }
    false
}

/// Refusal for a guest who has never stayed.
pub fn album_forbidden() -> (e: AppError)
    ensures
        e@ == (ErrorKind::Forbidden, "The camp photo album is for guests who have stayed with us."@),
{
    AppError::new(ErrorKind::Forbidden, "The camp photo album is for guests who have stayed with us.")
}

/// Landing-page settings as an admin submits them.
#[derive(Debug, Clone)]
pub struct UpdateSettings {
    pub hero_title: String,
    pub hero_subtitle: String,
    pub about_text: String,
    pub guest_photos_url: Option<String>,
}

/// Settings as stored: trimmed, with a blank album link cleared.
#[derive(Debug, Clone)]
pub struct CleanSettings {
    pub hero_title: String,
    pub hero_subtitle: String,
    pub about_text: String,
    pub guest_photos_url: Option<String>,
}

pub open spec fn web_link(url: Seq<char>) -> bool {
    (url.len() >= 7 && url.subrange(0, 7) == "http://"@) || (url.len() >= 8 && url.subrange(0, 8)
        == "https://"@)
}

impl UpdateSettings {
    /// Requires a title and subtitle, and an album link (when given) that is
    /// a web address.
    pub fn validated(&self) -> (r: Result<CleanSettings, AppError>)
        ensures
            trim_spec(self.hero_title@).len() == 0 ==> r is Err && r->Err_0@ == (
                ErrorKind::BadRequest,
                "Hero title is required."@,
            ),
            trim_spec(self.hero_title@).len() > 0 && trim_spec(self.hero_subtitle@).len() == 0
                ==> r is Err && r->Err_0@ == (ErrorKind::BadRequest, "Hero subtitle is required."@),
            trim_spec(self.hero_title@).len() > 0 && trim_spec(self.hero_subtitle@).len() > 0 ==> match cleaned(
                opt_view(self.guest_photos_url),
            ) {
                Some(u) => if web_link(u) {
                    r matches Ok(c) && c.guest_photos_url matches Some(s) && s@ == u
                } else {
                    r is Err && r->Err_0@ == (
                        ErrorKind::BadRequest,
                        "Guest photos link must start with http:// or https://."@,
                    )
                },
                None => r matches Ok(c) && c.guest_photos_url is None,
            },
            r matches Ok(c) ==> c.hero_title@ == trim_spec(self.hero_title@) && c.hero_subtitle@
                == trim_spec(self.hero_subtitle@) && c.about_text@ == trim_spec(self.about_text@),
    {
        let title = trim(self.hero_title.as_str());
        if title.unicode_len() == 0 {
            return Err(AppError::new(ErrorKind::BadRequest, "Hero title is required."));
        }
        let subtitle = trim(self.hero_subtitle.as_str());
        if subtitle.unicode_len() == 0 {
            return Err(AppError::new(ErrorKind::BadRequest, "Hero subtitle is required."));
        }
        let url = crate::text::clean(self.guest_photos_url.clone());
        match &url {
            Some(u) => {
                if !(starts_with(u.as_str(), "http://") || starts_with(u.as_str(), "https://")) {
                    proof {
                        reveal_strlit("http://");
                        reveal_strlit("https://");
                    }
                    return Err(
                        AppError::new(
                            ErrorKind::BadRequest,
                            "Guest photos link must start with http:// or https://.",
                        ),
                    );
                }
                proof {
                    reveal_strlit("http://");
                    reveal_strlit("https://");
                }
            },
            None => {},
        }
        Ok(
            CleanSettings {
                hero_title: String::from_str(title),
                hero_subtitle: String::from_str(subtitle),
                about_text: String::from_str(trim(self.about_text.as_str())),
                guest_photos_url: url,
            },
        )
    }
}

/// A house rule as an admin submits it.
#[derive(Debug, Clone)]
pub struct RuleBody {
    pub text: String,
    pub sort_order: i32,
}

impl RuleBody {
    /// The trimmed rule text, refused when blank.
    pub fn validated(&self) -> (r: Result<&str, AppError>)
        ensures
            trim_spec(self.text@).len() == 0 ==> r is Err && r->Err_0@ == (
                ErrorKind::BadRequest,
                "Rule text is required."@,
            ),
            trim_spec(self.text@).len() > 0 ==> (r matches Ok(t) && t@ == trim_spec(self.text@)),
    {
        let t = trim(self.text.as_str());
        if t.unicode_len() == 0 {
            return Err(AppError::new(ErrorKind::BadRequest, "Rule text is required."));
        }
        Ok(t)
    }
}

/// An amenity as an admin submits it.
#[derive(Debug, Clone)]
pub struct AmenityBody {
    pub label: String,
    pub icon: Option<String>,
    pub sort_order: i32,
}

impl AmenityBody {
    /// The trimmed label (refused when blank) and icon (absent when blank).
    pub fn validated(&self) -> (r: Result<(&str, Option<&str>), AppError>)
        ensures
            trim_spec(self.label@).len() == 0 ==> r is Err && r->Err_0@ == (
                ErrorKind::BadRequest,
                "Amenity label is required."@,
            ),
            trim_spec(self.label@).len() > 0 ==> (r matches Ok((l, i)) && l@ == trim_spec(self.label@)
                && match i {
                Some(x) => cleaned(opt_view(self.icon)) == Some(x@),
                None => cleaned(opt_view(self.icon)) is None,
            }),
    {
        let label = trim(self.label.as_str());
        if label.unicode_len() == 0 {
            return Err(AppError::new(ErrorKind::BadRequest, "Amenity label is required."));
        }
        let icon = match &self.icon {
            Some(i) => {
                let t = trim(i.as_str());
                if t.unicode_len() == 0 {
                    None
                } else {
                    Some(t)
                }
            },
            None => None,
        };
        Ok((label, icon))
    }
}

/// A gallery photo's editable fields.
#[derive(Debug, Clone)]
pub struct GalleryUpdateBody {
    pub caption: Option<String>,
    pub sort_order: i32,
}

/// The album link as a signed-in guest receives it.
#[derive(Debug, Clone)]
pub struct GuestPhotosLink {
    /// `None` when no admin has set a link yet.
    pub url: Option<String>,
}

} // verus!
