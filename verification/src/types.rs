//! The records that the broker takes in and gives out.

use vstd::prelude::*;

verus! {

/// The settings of one installation.
#[derive(Debug, Clone)]
pub struct Config {
    pub port: u16,
    pub provider: String,
    pub share_expired: u32,
    /// Minutes that a handshake credential lives.
    pub logininfo_expired: u16,
    /// Minutes that a session credential lives.
    pub login_status_expired: u16,
    pub failed_expried: u32,
    pub failed_times_lock: u8,
    pub cache_enabled: bool,
    pub cache_expired: u16,
    pub check_cycle: u16,
    pub enable_record: bool,
}

impl Default for Config {
    fn default() -> (config: Config)
        ensures
            config.provider@ == "HLHSInfo Open Source"@,
            config.port == 1156,
            config.share_expired == 1800000,
            config.logininfo_expired == 5,
            config.login_status_expired == 60,
            config.failed_expried == 3600000,
            config.failed_times_lock == 5,
            config.cache_enabled,
            config.cache_expired == 48,
            config.check_cycle == 5,
            config.enable_record,
    {
        Config {
            provider: "HLHSInfo Open Source".to_owned(),
            port: 1156,
            share_expired: 1800000,
            logininfo_expired: 5,
            login_status_expired: 60,
            failed_expried: 3600000,
            failed_times_lock: 5,
            cache_enabled: true,
            cache_expired: 48,
            check_cycle: 5,
            enable_record: true,
        }
    }
}

pub struct CacheKeyData {
    pub id: Vec<u8>,
    pub key: Vec<u8>,
    pub iv: Vec<u8>,
}

/// The credential of a client that is in the middle of the handshake: it
/// names the portal, the session that the portal opened for the probe and
/// the token of its login form, and no user.
#[derive(Debug, Clone)]
pub struct LoginInfoAuthToken {
    pub host: String,
    pub site_key: String,
    pub cookie: String,
    pub need_captcha: bool,
    /// Issued at, in seconds.
    pub iat: u64,
    /// Expires at, in seconds.
    pub exp: u64,
}

/// The credential of a client that has logged in: the portal, the session
/// cookie to relay to it, and what is known of the user.
#[derive(Debug, Clone)]
pub struct AuthToken {
    pub host: String,
    pub cookie: String,
    pub user_data: UserProfileShortValue,
    /// Issued at, in seconds.
    pub iat: u64,
    /// Expires at, in seconds.
    pub exp: u64,
}

#[derive(Debug)]
pub struct Alive {
    pub message: String,
    pub timestamp: u128,
    pub provider: String,
}

#[derive(Debug)]
pub struct ResponseErrorAt {
    pub api: Option<String>,
    pub trace: Option<String>,
    pub at: Option<String>,
}

#[derive(Debug)]
pub struct ErrorResponse {
    pub message: String,
    pub timestamp: u128,
    pub wrong: Option<ResponseErrorAt>,
}

/// An error as it goes out: the HTTP status and the body.
#[derive(Debug)]
pub struct ErrorReturn {
    pub code: u16,
    pub body: ErrorResponse,
}

#[derive(Debug)]
#[allow(non_snake_case)]
pub struct LoginInfo {
    pub authToken: String,
    pub need_captcha: bool,
}

#[derive(Debug)]
pub struct Login {
    pub message: String,
    pub authtoken: String,
}

#[derive(Debug)]
pub struct UserDataValues {
    pub name: String,
    pub value: String,
}

#[derive(Debug)]
#[allow(non_snake_case)]
pub struct UserCollect {
    pub data: Vec<UserDataValues>,
    pub profileImg: String,
}

#[derive(Debug)]
pub struct UserData {
    pub message: String,
    pub data: UserCollect,
}

/// What the portal shows of a user at a glance.
#[derive(Debug, Clone)]
#[allow(non_snake_case)]
pub struct UserProfileShortValue {
    pub className: String,
    pub classNumber: String,
    pub gender: String,
    pub schoolNumber: String,
    pub userName: String,
}

#[derive(Debug)]
pub struct UserProfileShortData {
    pub message: String,
    pub data: UserProfileShortValue,
}

#[derive(Debug)]
#[allow(non_snake_case)]
pub struct AvailableScoreValue {
    pub name: String,
    pub term: u8,
    pub testID: String,
    pub times: u8,
    pub kind: u8,
    pub year: u8,
}

#[derive(Debug)]
pub struct AvailableScoreData {
    pub message: String,
    pub data: Vec<AvailableScoreValue>,
}

#[derive(Debug)]
pub struct ScoreDataValue {
    pub name: String,
    pub score: u8,
    pub gpa: u8,
}

#[derive(Debug)]
pub struct ScoreExtraData {
    pub kind: String,
    pub value: String,
}

#[derive(Debug)]
pub struct ScoreUnpass {
    pub name: String,
    pub kind: String,
}

#[derive(Debug)]
pub struct ScoreDataCollect {
    pub data: Vec<ScoreDataValue>,
    pub extra: Vec<ScoreExtraData>,
    pub unpass: Vec<ScoreUnpass>,
}

#[derive(Debug)]
pub struct ScoreData {
    pub message: String,
    pub data: ScoreDataCollect,
}

#[derive(Debug)]
pub struct RewardAndPunishDetailValue {
    pub execute: String,
    pub reason: String,
    pub signed: String,
    pub sold: Option<String>,
    pub start: String,
    pub kind: String,
    pub year: u8,
}

#[derive(Debug)]
pub struct RewardAndPunishStatus {
    pub kind: String,
    pub times: u16,
}

#[derive(Debug)]
pub struct RewardAndPunishCollect {
    pub detail: Vec<RewardAndPunishDetailValue>,
    pub status: Vec<RewardAndPunishStatus>,
}

#[derive(Debug)]
pub struct RewardAndPunishData {
    pub message: String,
    pub data: RewardAndPunishCollect,
}

/// One day of the absence record: the day, and what each period of it
/// shows, if anything.
#[derive(Debug)]
pub struct LackRecordValue {
    pub data: Vec<Option<String>>,
    pub date: String,
    pub week: String,
}

#[derive(Debug)]
pub struct LackStatusValue {
    pub name: String,
    pub value: u16,
}

/// The counts of absences by kind, for each of the two terms.
#[derive(Debug)]
#[allow(non_snake_case)]
pub struct LackStatus {
    pub termDown: Vec<LackStatusValue>,
    pub termUp: Vec<LackStatusValue>,
}

#[derive(Debug)]
pub struct LackCollect {
    pub record: Vec<LackRecordValue>,
    pub total: LackStatus,
}

#[derive(Debug)]
pub struct LackData {
    pub message: String,
    pub data: LackCollect,
}

#[derive(Debug)]
pub struct AllScoreNormalDataValue {
    pub name: String,
    pub value: u8,
}

#[derive(Debug)]
pub struct AllScoreNormalData {
    pub name: String,
    pub values: Vec<AllScoreNormalDataValue>,
}

#[derive(Debug)]
pub struct AllScoreTestDataInfo {
    pub name: String,
    pub term: u8,
    pub test: u8,
    pub year: u8,
}

#[derive(Debug)]
pub struct AllScoreTestDataValue {
    pub name: AllScoreTestDataInfo,
    pub value: u8,
}

#[derive(Debug)]
pub struct AllScoreTestData {
    pub name: String,
    pub values: Vec<AllScoreTestDataValue>,
}

#[derive(Debug)]
#[allow(non_snake_case)]
pub struct AllScoreTestCollect {
    pub dataNormal: Vec<AllScoreNormalData>,
    pub dataTest: Vec<AllScoreTestData>,
}

#[derive(Debug)]
pub struct AllScoreData {
    pub message: String,
    pub data: AllScoreTestCollect,
}

#[derive(Debug)]
pub struct ScheduleListValues {
    pub name: String,
    pub class: String,
    pub teacher: String,
}

#[derive(Debug)]
pub struct ScheduleListCollect {
    pub schedules: Vec<ScheduleListValues>,
}

#[derive(Debug)]
pub struct ScheduleListData {
    pub message: String,
    pub data: ScheduleListCollect,
}

#[derive(Debug)]
#[allow(non_snake_case)]
pub struct ShareScoreCollect {
    pub id: String,
    pub createdTimestamp: u128,
    pub expiredTimestamp: u128,
}

#[derive(Debug)]
pub struct ShareScoreData {
    pub message: String,
    pub data: ShareScoreCollect,
}

#[derive(Debug)]
pub struct GetSharedScoreInfo {
    pub term: u8,
    pub times: u8,
    pub year: u8,
}

#[derive(Debug)]
#[allow(non_snake_case)]
pub struct GetSharedCollect {
    pub data: Vec<ScoreDataValue>,
    pub extra: Vec<ScoreExtraData>,
    pub unpass: Vec<ScoreUnpass>,
    pub scoreInfo: GetSharedScoreInfo,
    pub sharedID: String,
    pub userInfo: UserProfileShortValue,
}

#[derive(Debug)]
pub struct GetSharedData {
    pub message: String,
    pub data: GetSharedCollect,
}

} // verus!
