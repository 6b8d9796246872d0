//! What the health, landing and dashboard pages show.

use crate::assets::logos::random_index;
use crate::auth::jwt::Claims;
use crate::services::authz::role_set_of;
use crate::services::descriptor::Descriptor;
use crate::services::models::{card_views, ServiceCard};
use crate::services::{filter_services_for_user, visible_to};
use crate::text::{
    clone_opt, decimal_padded, from_chars, opt_view, parse_bounded, parse_decimal,
    push_decimal_padded, push_str_chars, slice_chars, split, split_chars, to_chars, views,
};
use crate::web::templates::{DashboardTemplate, DeploymentDisplay, FormattedTime, LandingTemplate};
use vstd::prelude::*;
use vstd::string::*;

verus! {

/// Status of a ready service.
pub const STATUS_OK: u16 = 200;

/// Status of a service that is not ready.
pub const STATUS_UNAVAILABLE: u16 = 503;

/// Where logos are served from.
pub const LOGO_PREFIX: &'static str = "/static/logos/";

/// Number of characters shown of a commit hash.
pub const SHORT_SHA_LEN: usize = 7;

// ---------------------------------------------------------------------------
// Calendar
// ---------------------------------------------------------------------------

/// Whether `year` is a leap year of the Gregorian calendar.
pub open spec fn is_leap_year(year: int) -> bool {
    (year % 4 == 0 && year % 100 != 0) || year % 400 == 0
}

/// Number of days of a month; 0 for a month that does not exist.
pub open spec fn month_length(year: int, month: int) -> int {
    if month == 1 || month == 3 || month == 5 || month == 7 || month == 8 || month == 10 || month
        == 12 {
        31
    } else if month == 4 || month == 6 || month == 9 || month == 11 {
        30
    } else if month == 2 {
        if is_leap_year(year) {
            29
        } else {
            28
        }
    } else {
        0
    }
}

/// The number of days in a month of a year.
pub fn days_in_month(year: u32, month: u32) -> (days: u32)
    ensures
        days == month_length(year as int, month as int),
{
    match month {
        1 | 3 | 5 | 7 | 8 | 10 | 12 => 31,
        4 | 6 | 9 | 11 => 30,
        2 => {
            if (year % 4 == 0 && year % 100 != 0) || year % 400 == 0 {
                29
            } else {
                28
            }
        },
        _ => 0,
    }
}

// ---------------------------------------------------------------------------
// Timestamps
// ---------------------------------------------------------------------------

/// A number as it is read from a timestamp: decimal, within 32 bits.
pub open spec fn field_value(s: Seq<char>) -> Option<int> {
    match parse_decimal(s) {
        Some(n) if n <= u32::MAX => Some(n as int),
        _ => None,
    }
}

/// The fields of a timestamp `<year>-<month>-<day>T<hour>:<minute>:<second>Z`
/// on the calendar, or `None` for any other text.
pub open spec fn timestamp_fields(s: Seq<char>) -> Option<(int, int, int, int, int, int)> {
    if s.len() == 0 || s.last() != 'Z' {
        None
    } else {
        let halves = split(s.drop_last(), 'T');
        if halves.len() != 2 {
            None
        } else {
            let date = split(halves[0], '-');
            let time = split(halves[1], ':');
            if date.len() != 3 || time.len() != 3 {
                None
            } else {
                match (
                    field_value(date[0]),
                    field_value(date[1]),
                    field_value(date[2]),
                    field_value(time[0]),
                    field_value(time[1]),
                    field_value(time[2]),
                ) {
                    (Some(year), Some(month), Some(day), Some(hour), Some(minute), Some(second)) => {
                        if 1 <= month <= 12 && 1 <= day <= month_length(year, month) && hour <= 23
                            && minute <= 59 && second <= 59 {
                            Some((year, month, day, hour, minute, second))
                        } else {
                            None
                        }
                    },
                    _ => None,
                }
            }
        }
    }
}

/// A timestamp for display: `YYYY-MM-DD HH:MM UTC`, seconds left out.
pub open spec fn display_time(year: int, month: int, day: int, hour: int, minute: int) -> Seq<
    char,
> {
    decimal_padded(year as nat, 4) + seq!['-'] + decimal_padded(month as nat, 2) + seq!['-']
        + decimal_padded(day as nat, 2) + seq![' '] + decimal_padded(hour as nat, 2) + seq![':']
        + decimal_padded(minute as nat, 2) + " UTC"@
}

/// What is shown for a timestamp: the display text and the text as it came,
/// or nothing where the text is no timestamp.
pub open spec fn displayed(iso: Seq<char>) -> Option<(Seq<char>, Seq<char>)> {
    match timestamp_fields(iso) {
        Some(f) => Some((display_time(f.0, f.1, f.2, f.3, f.4), iso)),
        None => None,
    }
}

/// The two texts of a formatted time.
pub open spec fn formatted(t: Option<FormattedTime>) -> Option<(Seq<char>, Seq<char>)> {
    match t {
        Some(t) => Some((t.display@, t.iso@)),
        None => None,
    }
}

/// Reads one field of a timestamp.
fn parse_field(v: &Vec<char>) -> (r: Option<u32>)
    ensures
        match r {
            Some(n) => field_value(v@) == Some(n as int),
            None => field_value(v@) is None,
        },
{
    match parse_bounded(v, 0xffff_ffff) {
        Some(n) => Some(n as u32),
        None => None,
    }
}

/// Formats an ISO 8601 timestamp in UTC for display. The text must end in
/// `Z` and name a moment that exists on the calendar.
pub fn format_utc_datetime(iso_datetime: &str) -> (r: Option<FormattedTime>)
    ensures
        formatted(r) == displayed(iso_datetime@),
{
    let chars = to_chars(iso_datetime);
    if chars.len() == 0 || chars[chars.len() - 1] != 'Z' {
        return None;
    }
    let body = slice_chars(&chars, 0, chars.len() - 1);
    assert(body@ == chars@.drop_last());
    let halves = split_chars(&body, 'T');
    if halves.len() != 2 {
        return None;
    }
    proof {
        assert(views(halves@)[0] == halves@[0]@);
        assert(views(halves@)[1] == halves@[1]@);
    }
    let date = split_chars(&halves[0], '-');
    if date.len() != 3 {
        return None;
    }
    proof {
        assert(views(date@)[0] == date@[0]@);
        assert(views(date@)[1] == date@[1]@);
        assert(views(date@)[2] == date@[2]@);
    }
    let year = match parse_field(&date[0]) {
        Some(n) => n,
        None => {
            return None;
        },
    };
    let month = match parse_field(&date[1]) {
        Some(n) => n,
        None => {
            return None;
        },
    };
    let day = match parse_field(&date[2]) {
        Some(n) => n,
        None => {
            return None;
        },
    };
    if month < 1 || month > 12 {
        return None;
    }
    let max_days = days_in_month(year, month);
    if day < 1 || day > max_days {
        return None;
    }
    let time = split_chars(&halves[1], ':');
    if time.len() != 3 {
        return None;
    }
    proof {
        assert(views(time@)[0] == time@[0]@);
        assert(views(time@)[1] == time@[1]@);
        assert(views(time@)[2] == time@[2]@);
    }
    let hour = match parse_field(&time[0]) {
        Some(n) => n,
        None => {
            return None;
        },
    };
    let minute = match parse_field(&time[1]) {
        Some(n) => n,
        None => {
            return None;
        },
    };
    let second = match parse_field(&time[2]) {
        Some(n) => n,
        None => {
            return None;
        },
    };
    if hour > 23 || minute > 59 || second > 59 {
        return None;
    }
    let mut out: Vec<char> = Vec::new();
    push_decimal_padded(&mut out, year as u64, 4);
    out.push('-');
    push_decimal_padded(&mut out, month as u64, 2);
    out.push('-');
    push_decimal_padded(&mut out, day as u64, 2);
    out.push(' ');
    push_decimal_padded(&mut out, hour as u64, 2);
    out.push(':');
    push_decimal_padded(&mut out, minute as u64, 2);
    push_str_chars(&mut out, " UTC");
    proof {
        assert(out@ =~= display_time(
            year as int,
            month as int,
            day as int,
            hour as int,
            minute as int,
        ));
    }
    Some(FormattedTime { display: from_chars(&out), iso: iso_datetime.to_owned() })
}

// ---------------------------------------------------------------------------
// Pages
// ---------------------------------------------------------------------------

/// The answer to a liveness probe: the process runs.
pub fn healthz_handler() -> (status: u16)
    ensures
        status == STATUS_OK,
{
    STATUS_OK
}

/// The answer to a readiness probe: ready once a key set has been fetched.
pub fn readyz_handler(jwks_cached: bool) -> (r: (u16, &'static str))
    ensures
        r.0 == if jwks_cached {
            STATUS_OK
        } else {
            STATUS_UNAVAILABLE
        },
        r.1@ == if jwks_cached {
            "ready"@
        } else {
            "not ready: JWKS not cached"@
        },
{
    if jwks_cached {
        (STATUS_OK, "ready")
    } else {
        (STATUS_UNAVAILABLE, "not ready: JWKS not cached")
    }
}

/// The URL under which a logo is served.
pub open spec fn logo_url(file_name: Seq<char>) -> Seq<char> {
    LOGO_PREFIX@ + file_name
}

/// The landing page with the logo at `index`, or without one where the
/// index names none.
pub fn landing_page(logos: &Vec<String>, index: usize) -> (page: LandingTemplate)
    ensures
        opt_view(page.logo_url) == if index < logos@.len() {
            Some(logo_url(logos@[index as int]@))
        } else {
            None
        },
{
    if index < logos.len() {
        let mut url = to_chars(LOGO_PREFIX);
        push_str_chars(&mut url, logos[index].as_str());
        LandingTemplate { logo_url: Some(from_chars(&url)) }
    } else {
        LandingTemplate { logo_url: None }
    }
}

/// The landing page with a logo picked at random, or without one where
/// there is none to pick.
pub fn landing_handler(logos: &Vec<String>) -> (page: LandingTemplate)
    ensures
        logos@.len() == 0 ==> page.logo_url is None,
        logos@.len() > 0 ==> exists|i: int|
            0 <= i < logos@.len() && opt_view(page.logo_url) == Some(logo_url(logos@[i]@)),
{
    if logos.len() > 0 {
        let index = random_index(logos.len());
        let page = landing_page(logos, index);
        assert(opt_view(page.logo_url) == Some(logo_url(logos@[index as int]@)));
        page
    } else {
        LandingTemplate { logo_url: None }
    }
}

/// The first characters of a commit hash, seven at most.
pub open spec fn short_sha(sha: Seq<char>) -> Seq<char> {
    if sha.len() > SHORT_SHA_LEN {
        sha.take(SHORT_SHA_LEN as int)
    } else {
        sha
    }
}

/// Shortens a commit hash for display.
pub fn shorten_sha(sha: &str) -> (r: String)
    ensures
        r@ == short_sha(sha@),
{
    let chars = to_chars(sha);
    if chars.len() > SHORT_SHA_LEN {
        let short = slice_chars(&chars, 0, SHORT_SHA_LEN);
        assert(short@ == chars@.take(SHORT_SHA_LEN as int));
        from_chars(&short)
    } else {
        from_chars(&chars)
    }
}

/// The name shown for a user: the display name, or the subject where the
/// token carries none.
pub open spec fn display_name(claims: Claims) -> Seq<char> {
    match claims.preferred_username {
        Some(name) => name@,
        None => claims.sub@,
    }
}

/// Whether `d` is what the footer says about the deployment of a
/// descriptor: its id, the shortened commit hash, and the two timestamps
/// as far as they can be read.
pub open spec fn shows_deployment(d: DeploymentDisplay, descriptor: Descriptor) -> bool {
    &&& d.deployment_id@ == descriptor.deployment_id@
    &&& opt_view(d.short_sha) == match descriptor.deployment {
        Some(info) => match info.commit_sha {
            Some(sha) => Some(short_sha(sha@)),
            None => None,
        },
        None => None,
    }
    &&& formatted(d.commit_time) == match descriptor.deployment {
        Some(info) => match info.commit_at {
            Some(at) => displayed(at@),
            None => None,
        },
        None => None,
    }
    &&& formatted(d.deployed_time) == match descriptor.deployment {
        Some(info) => match info.deployed_at {
            Some(at) => displayed(at@),
            None => None,
        },
        None => None,
    }
}

/// What the footer says about the deployment of a descriptor.
pub fn deployment_display(descriptor: &Descriptor) -> (d: DeploymentDisplay)
    ensures
        shows_deployment(d, *descriptor),
{
    let (short_sha, commit_time, deployed_time) = match &descriptor.deployment {
        Some(info) => (
            match &info.commit_sha {
                Some(sha) => Some(shorten_sha(sha.as_str())),
                None => None,
            },
            match &info.commit_at {
                Some(at) => format_utc_datetime(at.as_str()),
                None => None,
            },
            match &info.deployed_at {
                Some(at) => format_utc_datetime(at.as_str()),
                None => None,
            },
        ),
        None => (None, None, None),
    };
    DeploymentDisplay {
        deployment_id: descriptor.deployment_id.clone(),
        short_sha,
        commit_time,
        deployed_time,
    }
}

/// The dashboard of a user: the cards that the token's roles give access
/// to, the user's name and email address, and the deployment footer.
pub fn dashboard_handler(services: &[ServiceCard], descriptor: &Descriptor, claims: &Claims) -> (page:
    DashboardTemplate)
    ensures
        page.username@ == display_name(*claims),
        opt_view(page.email) == opt_view(claims.email),
        card_views(page.services@) == card_views(services@).filter(
            visible_to(role_set_of(claims.spec_roles())),
        ),
        shows_deployment(page.deployment, *descriptor),
{
    let user_roles = claims.roles();
    let accessible = filter_services_for_user(services, user_roles.as_slice());
    let username = match &claims.preferred_username {
        Some(name) => name.clone(),
        None => claims.sub.clone(),
    };
    DashboardTemplate {
        username,
        email: clone_opt(&claims.email),
        services: accessible,
        deployment: deployment_display(descriptor),
    }
}

} // verus!
