//! Records exchanged with the portals' data endpoints.

use vstd::prelude::*;

verus! {

/// The bearer-token payload of the learning-management portal, with the account's attributes.
#[derive(Debug)]
pub struct UserInfo {
    pub access_token: String,
    pub token_type: String,
    pub refresh_token: String,
    pub expires_in: i64,
    pub scope: String,
    pub tenant_id: String,
    pub login_id: String,
    pub management_dept: String,
    pub user_name: String,
    pub current_domain: String,
    pub real_name: String,
    pub avatar: String,
    pub client_id: String,
    pub license: String,
    pub current_term: String,
    pub belong_dept: String,
    pub user_id: String,
    pub current_role: String,
    pub account: String,
    pub jti: String,
}

/// The account that a token was issued for.
#[derive(Debug)]
pub struct UserRecord {
    pub account: String,
    pub password: String,
}

/// A course teacher.
#[derive(Debug, Clone)]
pub struct TeacherInfo {
    pub id: String,
    pub name: String,
    pub avatar: String,
}
/// A course the student takes.
#[derive(Debug, Clone)]
pub struct CourseInfo {
    pub id: String,
    pub name: String,
    pub pic_url: String,
    pub teachers: Vec<TeacherInfo>,
}

/// A pending activity; `activity_type` is the portal's `type` code.
#[derive(Debug, Clone)]
pub struct UndoneListItem {
    pub site_id: i64,
    pub site_name: String,
    pub activity_name: String,
    pub activity_id: String,
    pub activity_type: i32,
    pub end_time: String,
    pub assignment_type: i32,
    pub evaluation_status: i32,
    pub is_open_evaluation: i32,
    pub course_info: Option<CourseInfo>,
}

/// The pending activities with their counts.
#[derive(Debug)]
pub struct UndoneList {
    pub site_num: i32,
    pub undone_num: i32,
    pub undone_list: Vec<UndoneListItem>,
}

/// The status part shared by the portal's answers.
#[derive(Debug)]
pub struct BasicResponse {
    pub success: bool,
    pub msg: String,
    pub code: i32,
}

/// The answer listing pending activities.
#[derive(Debug)]
pub struct UndoneListResponse {
    pub base: BasicResponse,
    pub data: UndoneList,
}

/// A resource attached to an assignment.
#[derive(Debug)]
pub struct Resource {
    pub resource_id: String,
    pub resource_name: String,
    pub resource_type: String,
}

/// A stored file behind a resource.
#[derive(Debug)]
pub struct ResourceDetail {
    pub storage_id: String,
    pub name: String,
    pub ext: String,
    pub id: String,
}

/// The answer listing stored files.
#[derive(Debug)]
pub struct ResourceDetailResponse {
    pub base: BasicResponse,
    pub data: Vec<ResourceDetail>,
}

/// The answer giving a preview link.
#[derive(Debug)]
pub struct PreviewUrlResponse {
    pub base: BasicResponse,
    pub data: PreviewUrlData,
}
/// A preview link.
#[derive(Debug)]
pub struct PreviewUrlData {
    pub preview_url: String,
}

/// The full record of an assignment.
#[derive(Debug)]
pub struct AssignmentDetail {
    pub id: String,
    pub assignment_title: String,
    pub assignment_content: String,
    pub assignment_comment: String,
    pub class_name: String,
    pub chapter_name: String,
    pub assignment_type: i32,
    pub no_submit_num: i32,
    pub total_num: i32,
    pub stay_read_num: i32,
    pub already_read_num: i32,
    pub is_group_excellent: i32,
    pub assignment_begin_time: String,
    pub assignment_end_time: String,
    pub is_overtime_commit: i32,
    pub assignment_status: i32,
    pub team_id: i64,
    pub is_open_evaluation: i32,
    pub status: i32,
    pub group_score: i32,
    pub assignment_score: i32,

    pub assignment_resource: Vec<Resource>,
    pub assignment_mutual_evaluation: serde_json::Value,
    pub course_info: Option<CourseInfo>,
    pub key: Option<String>,
    pub resource: Option<Vec<ResourceDetail>>,
}

/// An assignment as listed for a course.
#[derive(Debug)]
pub struct AssignmentInfo {
    pub id: String,
    pub assignment_title: String,
    pub chapter_name: String,
    pub assignment_type: i32,
    pub no_submit_num: i32,
    pub total_num: i32,
    pub already_read_num: i32,
    pub stay_read_num: i32,
    pub assignment_begin_time: String,
    pub assignment_end_time: String,
    pub submit_time: String,
    pub is_open_evaluation: i32,
    pub status: i32,
    pub assignment_status: i32,
    pub is_over_time: i32,
}

/// The answer giving an assignment's details.
#[derive(Debug)]
pub struct DetailResponse {
    pub base: BasicResponse,
    pub data: AssignmentDetail,
}

/// A page of assignments.
#[derive(Debug)]
pub struct ItemData {
    pub records: Vec<AssignmentInfo>,
}

/// The answer listing a course's assignments.
#[derive(Debug)]
pub struct ItemResponse {
    pub data: ItemData,
}

/// A file in a course's resource tree.
#[derive(Debug)]
pub struct CourseFileResource {
    pub name: String,
    pub ext: String,
    pub file_size_unit: String,
    pub url: String,
}

/// An attachment of a resource-tree node.
#[derive(Debug)]
pub struct CourseFileAttachment {
    pub id: String,
    pub resource: CourseFileResource,
}

/// A node of a course's resource tree.
#[derive(Debug)]
pub struct CourseFileNode {
    pub id: String,
    pub resource_name: String,
    pub attachment_vos: Vec<CourseFileAttachment>,
    pub children: Vec<Box<CourseFileNode>>,
}

/// What a lesson sign-in needs: the code's creation time and the lesson.
#[derive(Debug)]
pub struct CourseSigninInfo {
    pub qr_code_create_time: String,
    pub attendance_detail_info: AttendanceDetailInfo,
}

/// The lesson and user of an attendance sign-in.
#[derive(Debug)]
pub struct AttendanceDetailInfo {
    pub site_id: String,
    pub attendance_id: String,
    pub user_id: String,
    pub class_lesson_id: String,
}

/// The mobile portal's schedule answer.
#[derive(Debug)]
pub struct CourseScheduleResponse {
    pub msg: String,
    pub code: String,
    pub data: Vec<CourseScheduleData>,
    pub need_class_name: String,
    pub need_class_room_nub: String,
}

/// One week of the schedule.
#[derive(Debug)]
pub struct CourseScheduleData {
    pub date: Vec<DateInfo>,
    pub courses: Vec<CourseDetail>,
    pub nodes_lst: Vec<NodeInfo>,
    pub item: Vec<Vec<Vec<CourseDetail>>>,
    pub week: i32,
    pub nodes: Nodes,
    pub weekday: String,
    pub bz: String,
    pub top_info: Vec<TopInfo>,
}

/// A day of the schedule week.
#[derive(Debug)]
pub struct DateInfo {
    pub xqmc: String,
    pub mxrq: String,
    pub zc: String,
    pub xqid: String,
    pub rq: String,
}

/// A scheduled class.
#[derive(Debug)]
pub struct CourseDetail {
    pub class_week: String,
    pub teacher_name: String,
    pub week_note_detail: String,
    pub button_code: String,
    pub xqcolor: String,
    pub xkrs: i32,
    pub ktmc: String,
    pub class_time: String,
    pub classroom_nub: String,
    pub jx0408id: String,
    pub building_name: String,
    pub course_name: String,
    pub is_repeat_code: String,
    pub jx0404id: String,
    pub week_day: String,
    pub classroom_name: String,
    pub khfs: String,
    pub start_time: String,
    pub end_time: String,
    pub location: String,
    pub fzmc: String,
    pub class_week_details: String,
    pub courses_note: i32,
}

/// A class period.
#[derive(Debug)]
pub struct NodeInfo {
    pub node_name: String,
    pub node_number: String,
}

/// The class periods by part of the day.
#[derive(Debug)]
pub struct Nodes {
    pub sw: Vec<String>,
    pub ws: Vec<String>,
    pub zw: Vec<String>,
    pub xw: Vec<String>,
}

/// The term and week that a schedule belongs to.
#[derive(Debug)]
pub struct TopInfo {
    pub semester_id: String,
    pub week: String,
    pub today: String,
    pub weekday: String,
    pub max_week: String,
}

} // verus!
