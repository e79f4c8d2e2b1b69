//! Reading a lesson's attendance QR code text:
//! `checkwork|id=<attendance>&siteId=<site>&createTime=<time>&classLessonId=<lesson>`.

use crate::text::is_white_space;
use crate::utils::types::{AttendanceDetailInfo, CourseSigninInfo};
use vstd::prelude::*;

verus! {

/// Whether `lit` stands in `h` at `i`.
pub open spec fn has_at(h: Seq<char>, i: int, lit: Seq<char>) -> bool {
    0 <= i && i + lit.len() <= h.len() && h.subrange(i, i + lit.len()) == lit
}

/// The end of the run of characters other than `&` that starts at `j`.
pub open spec fn amp_end(h: Seq<char>, j: int) -> int
    decreases h.len() - j,
{
    if j < 0 || j >= h.len() || h[j] == '&' {
        j
    } else {
        amp_end(h, j + 1)
    }
}

/// The end of the run of characters other than `&` and white space that starts at `j`.
pub open spec fn token_end(h: Seq<char>, j: int) -> int
    decreases h.len() - j,
{
    if j < 0 || j >= h.len() || h[j] == '&' || is_white_space(h[j]) {
        j
    } else {
        token_end(h, j + 1)
    }
}

/// The four fields (attendance id, site id, creation time, lesson id) of a
/// match that starts at `i`, if one does. Each field is a non-empty run of
/// characters other than `&`; the last one stops at white space as well.
pub open spec fn checkwork_at(h: Seq<char>, i: int) -> Option<
    (Seq<char>, Seq<char>, Seq<char>, Seq<char>),
> {
    let l0 = "checkwork|id="@;
    let l1 = "&siteId="@;
    let l2 = "&createTime="@;
    let l3 = "&classLessonId="@;
    let a = i + l0.len();
    let e1 = amp_end(h, a);
    let b = e1 + l1.len();
    let e2 = amp_end(h, b);
    let c = e2 + l2.len();
    let e3 = amp_end(h, c);
    let d = e3 + l3.len();
    let e4 = token_end(h, d);
    if has_at(h, i, l0) && e1 > a && has_at(h, e1, l1) && e2 > b && has_at(h, e2, l2) && e3 > c
        && has_at(h, e3, l3) && e4 > d {
        Some((h.subrange(a, e1), h.subrange(b, e2), h.subrange(c, e3), h.subrange(d, e4)))
    } else {
        None
    }
}

/// The fields of the leftmost match at or after `i`.
pub open spec fn checkwork_from(h: Seq<char>, i: int) -> Option<
    (Seq<char>, Seq<char>, Seq<char>, Seq<char>),
>
    decreases h.len() - i,
{
    if i < 0 || i > h.len() {
        None
    } else {
        match checkwork_at(h, i) {
            Some(v) => Some(v),
            None => if i < h.len() {
                checkwork_from(h, i + 1)
            } else {
                None
            },
        }
    }
}

/// The views of four strings.
pub open spec fn quad_view(q: (String, String, String, String)) -> (
    Seq<char>,
    Seq<char>,
    Seq<char>,
    Seq<char>,
) {
    (q.0@, q.1@, q.2@, q.3@)
}

/// Relies on `regex::Regex::new` and `Regex::captures` with the pattern
/// `checkwork\|id=([^&]+)&siteId=([^&]+)&createTime=([^&]+)&classLessonId=([^\s&]+)`:
/// the leftmost match; each greedy group takes the longest run its class allows,
/// and `\s` is Unicode white space.
#[verifier::external_body]
fn capture_checkwork(content: &str) -> (r: Option<(String, String, String, String)>)
    ensures
        r is Some <==> checkwork_from(content@, 0) is Some,
        r is Some ==> quad_view(r->Some_0) == checkwork_from(content@, 0)->Some_0,
{
    regex::Regex::new(
        r#"checkwork\|id=([^&]+)&siteId=([^&]+)&createTime=([^&]+)&classLessonId=([^\s&]+)"#,
    ).ok().and_then(
        |re|
            re.captures(content).map(
                |c| (c[1].to_string(), c[2].to_string(), c[3].to_string(), c[4].to_string()),
            ),
    )
}

/// The sign-in request that an attendance QR code stands for, with the user
/// left empty; `None` where the text is no attendance code.
pub fn signin_info_from_qr(content: &str) -> (r: Option<CourseSigninInfo>)
    ensures
        r is Some <==> checkwork_from(content@, 0) is Some,
        r is Some ==> ({
            let f = checkwork_from(content@, 0)->Some_0;
            let info = r->Some_0;
            &&& info.attendance_detail_info.attendance_id@ == f.0
            &&& info.attendance_detail_info.site_id@ == f.1
            &&& info.qr_code_create_time@ == f.2
            &&& info.attendance_detail_info.class_lesson_id@ == f.3
            &&& info.attendance_detail_info.user_id@ == Seq::<char>::empty()
        }),
{
    match capture_checkwork(content) {
        Some((attendance_id, site_id, create_time, class_lesson_id)) => Some(
            CourseSigninInfo {
                qr_code_create_time: create_time,
                attendance_detail_info: AttendanceDetailInfo {
                    site_id,
                    attendance_id,
                    user_id: String::new(),
                    class_lesson_id,
                },
            },
        ),
        None => None,
    }
}

} // verus!
