//! The first version of the API: one reader for each page of the portal
//! that it gives out.

pub mod get_available_score;
pub mod get_lack;
pub mod get_login_captcha;
pub mod get_reward_and_punish;
pub mod get_score;
pub mod get_user_info_short;
pub mod get_user_profile;
