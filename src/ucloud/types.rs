//! The learning-management portal's records, shared with the other portals.

pub use crate::utils::types::{
    AssignmentDetail, AssignmentInfo, AttendanceDetailInfo, BasicResponse, CourseFileAttachment,
    CourseFileNode, CourseFileResource, CourseInfo, CourseSigninInfo, DetailResponse, ItemData,
    ItemResponse, PreviewUrlData, PreviewUrlResponse, Resource, ResourceDetail,
    ResourceDetailResponse, TeacherInfo, UndoneList, UndoneListItem, UndoneListResponse, UserInfo,
    UserRecord,
};
