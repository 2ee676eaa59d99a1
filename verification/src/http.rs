//! The pages of the portal, and what a reply of the portal is taken for.

use crate::text::{chars_of, replace_all, replaced, string_of};
use vstd::prelude::*;

verus! {

/// One rewriting of a page's path: each occurrence of `match_string` gives
/// way to `replacement`.
pub struct ReplaceString {
    pub match_string: String,
    pub replacement: String,
}

/// The pages of the portal that the broker asks for.
#[derive(Clone, Copy, Debug, PartialEq, Eq, Structural)]
pub enum APIPaths {
    Home,
    Login,
    LoginCaptcha,
    ScoreList,
    Score,
    Profile,
    ProfileImage,
    ProfileShort,
    ClassData,
    RewardAndPunish,
    Lack,
    AllScores,
    Schedule,
    ScheduleList,
}

/// A path after the rewritings of `rules`, applied one after the other.
pub open spec fn rewritten(path: Seq<char>, rules: Seq<ReplaceString>) -> Seq<char>
    decreases rules.len(),
{
    if rules.len() == 0 {
        path
    } else {
        rewritten(
            replaced(path, rules[0].match_string@, rules[0].replacement@),
            rules.drop_first(),
        )
    }
}

impl APIPaths {
    /// The path of each page under the portal's base address.
    pub open spec fn path_text(self) -> Seq<char> {
        match self {
            APIPaths::Home => "/"@,
            APIPaths::Login => "/login.asp"@,
            APIPaths::LoginCaptcha => "/image/vcode.asp"@,
            APIPaths::Score => "/selection_student/student_subjects_number.asp?action=%A6U%A6%A1%A6%A8%C1Z&thisyear=$year$&thisterm=$term$&number=$testid$&exam_name=hlhs"@,
            APIPaths::ScoreList => "/selection_student/student_subjects_number.asp?action=open_window_frame"@,
            APIPaths::AllScores => "/selection_student/grade_chart_all.asp"@,
            APIPaths::Profile => "/selection_student/fundamental.asp"@,
            APIPaths::ProfileImage => "/utility/file1.asp?q=x&id=$imgid$"@,
            APIPaths::ProfileShort => "/student/selection_look_over_data.asp?look_over=right_below&school_class="@,
            APIPaths::ClassData => "/student/selection_look_over_data.asp?look_over=right_top&school_class=&division="@,
            APIPaths::Schedule => "/student/school_class_tabletime.asp?teacher_classnumber=$class$&teacher_name=$teacher$"@,
            APIPaths::ScheduleList => "/student/select_preceptor.asp?action=open_sel"@,
            APIPaths::Lack => "/selection_student/absentation_skip_school.asp"@,
            APIPaths::RewardAndPunish => "/selection_student/moralculture_%20bonuspenalty.asp"@,
        }
    }

    pub fn path(&self) -> (text: &'static str)
        ensures
            text@ == self.path_text(),
    {
        match *self {
            APIPaths::Home => "/",
            APIPaths::Login => "/login.asp",
            APIPaths::LoginCaptcha => "/image/vcode.asp",
            APIPaths::Score => "/selection_student/student_subjects_number.asp?action=%A6U%A6%A1%A6%A8%C1Z&thisyear=$year$&thisterm=$term$&number=$testid$&exam_name=hlhs",
            APIPaths::ScoreList => "/selection_student/student_subjects_number.asp?action=open_window_frame",
            APIPaths::AllScores => "/selection_student/grade_chart_all.asp",
            APIPaths::Profile => "/selection_student/fundamental.asp",
            APIPaths::ProfileImage => "/utility/file1.asp?q=x&id=$imgid$",
            APIPaths::ProfileShort => "/student/selection_look_over_data.asp?look_over=right_below&school_class=",
            APIPaths::ClassData => "/student/selection_look_over_data.asp?look_over=right_top&school_class=&division=",
            APIPaths::Schedule => "/student/school_class_tabletime.asp?teacher_classnumber=$class$&teacher_name=$teacher$",
            APIPaths::ScheduleList => "/student/select_preceptor.asp?action=open_sel",
            APIPaths::Lack => "/selection_student/absentation_skip_school.asp",
            APIPaths::RewardAndPunish => "/selection_student/moralculture_%20bonuspenalty.asp",
        }
    }

    /// The path of the page with the rewritings of `replacement` applied to
    /// it, the first one first.
    pub fn replace(&self, replacement: Vec<ReplaceString>) -> (text: String)
        ensures
            text@ == rewritten(self.path_text(), replacement@),
    {
        let mut origin: Vec<char> = chars_of(self.path());
        let mut i: usize = 0;
        assert(replacement@.skip(0) == replacement@);
        while i < replacement.len()
            invariant
                i <= replacement.len(),
                rewritten(self.path_text(), replacement@) == rewritten(
                    origin@,
                    replacement@.skip(i as int),
                ),
            decreases replacement.len() - i,
        {
            let from = chars_of(replacement[i].match_string.as_str());
            let to = chars_of(replacement[i].replacement.as_str());
            assert(replacement@.skip(i as int).drop_first() == replacement@.skip(i + 1));
            origin = replace_all(&origin, &from, &to);
            i += 1;
        }
        string_of(&origin)
    }
}

/// Why the portal gave no usable reply.
#[derive(Debug)]
pub enum HTTPErrorReturn {
    /// The request did not get through; the text says why.
    RequestError(String),
    /// The portal replied with this status, which is neither a success nor a
    /// redirection.
    StatusCodeError(u16),
}

/// One header of a request or of a reply.
#[derive(Debug, Clone)]
pub struct HeaderSetting {
    pub header: String,
    pub value: String,
}

/// A reply of the portal: the document, the status, and the headers in the
/// order in which they came.
#[derive(Debug, Clone)]
pub struct HTMLRespond {
    pub html: String,
    pub code: u16,
    pub header: Vec<HeaderSetting>,
}

/// A status from 200 to 299.
pub open spec fn success_status(code: u16) -> bool {
    200 <= code <= 299
}

/// A status from 300 to 399.
pub open spec fn redirection_status(code: u16) -> bool {
    300 <= code <= 399
}

pub fn is_success(code: u16) -> (yes: bool)
    ensures
        yes == success_status(code),
{
    200 <= code && code <= 299
}

pub fn is_redirection(code: u16) -> (yes: bool)
    ensures
        yes == redirection_status(code),
{
    300 <= code && code <= 399
}

/// Takes a status for a reply or for an error: a success or a redirection
/// is a reply, any other status an error that carries it.
pub fn check_status(code: u16) -> (checked: Result<u16, HTTPErrorReturn>)
    ensures
        match checked {
            Ok(kept) => kept == code && (success_status(code) || redirection_status(code)),
            Err(HTTPErrorReturn::StatusCodeError(refused)) => refused == code && !success_status(
                code,
            ) && !redirection_status(code),
            Err(HTTPErrorReturn::RequestError(_)) => false,
        },
{
    if !is_success(code) && !is_redirection(code) {
        return Err(HTTPErrorReturn::StatusCodeError(code));
    }
    Ok(code)
}

} // verus!
