//! Answers of the API: a status and a JSON body, or a file to stream.

use crate::models::{Download, ErrorResponseModel, Fields, PublicInfoModel};
use crate::models;
use vstd::prelude::*;

verus! {

pub const OK: u16 = 200;

pub const BAD_REQUEST: u16 = 400;

pub const NOT_FOUND: u16 = 404;

pub const INTERNAL_SERVER_ERROR: u16 = 500;

pub const SERVICE_UNAVAILABLE: u16 = 503;

/// The JSON body of an answer.
#[derive(Debug)]
pub enum Body {
    /// What went wrong.
    Error(ErrorResponseModel),
    /// Public information on the server.
    PublicInfo(PublicInfoModel),
    /// Updates, each with its game version.
    Updates(Vec<Download<String>>),
    /// Packages of one type, each with its package id.
    Packages(Vec<Download<u32>>),
    /// Files without anything added.
    Files(Vec<Download<()>>),
    /// An object of strings.
    Object(Fields),
}

pub enum BodyView {
    Error(Seq<char>),
    PublicInfo(models::PublicInfoView),
    Updates(Seq<models::DownloadView<Seq<char>>>),
    Packages(Seq<models::DownloadView<u32>>),
    Files(Seq<models::DownloadView<()>>),
    Object(Seq<(Seq<char>, Seq<char>)>),
}

impl View for Body {
    type V = BodyView;

    open spec fn view(&self) -> BodyView {
        match self {
            Body::Error(e) => BodyView::Error(e.detail@),
            Body::PublicInfo(info) => BodyView::PublicInfo(info@),
            Body::Updates(list) => BodyView::Updates(models::downloads_view(list@)),
            Body::Packages(list) => BodyView::Packages(models::downloads_view(list@)),
            Body::Files(list) => BodyView::Files(models::downloads_view(list@)),
            Body::Object(fields) => BodyView::Object(models::fields_view(fields@)),
        }
    }
}

/// A status and a JSON body.
#[derive(Debug)]
pub struct Reply {
    pub status: u16,
    pub body: Body,
}

pub struct ReplyView {
    pub status: u16,
    pub body: BodyView,
}

impl View for Reply {
    type V = ReplyView;

    open spec fn view(&self) -> ReplyView {
        ReplyView { status: self.status, body: self.body@ }
    }
}

/// An error answer.
pub open spec fn error_view(status: u16, detail: Seq<char>) -> ReplyView {
    ReplyView { status, body: BodyView::Error(detail) }
}

/// Answers with `status` and the message `detail`.
pub fn error_reply(status: u16, detail: &str) -> (reply: Reply)
    ensures
        reply@ == error_view(status, detail@),
{
    Reply { status, body: Body::Error(ErrorResponseModel { detail: detail.to_owned() }) }
}

/// The request is malformed, for the reason `msg`.
pub fn bad_request(msg: &str) -> (reply: Reply)
    ensures
        reply@ == error_view(BAD_REQUEST, msg@),
{
    error_reply(BAD_REQUEST, msg)
}

/// The request is refused, or nothing is there: the two look the same.
pub fn not_found() -> (reply: Reply)
    ensures
        reply@ == error_view(NOT_FOUND, "Not found."@),
{
    error_reply(NOT_FOUND, "Not found.")
}

/// No database has the name asked for.
pub fn database_not_found() -> (reply: Reply)
    ensures
        reply@ == error_view(NOT_FOUND, "Database not found"@),
{
    error_reply(NOT_FOUND, "Database not found")
}

/// Something failed on this side. The reason is not told.
pub fn internal_error() -> (reply: Reply)
    ensures
        reply@ == error_view(INTERNAL_SERVER_ERROR, "Internal server error"@),
{
    error_reply(INTERNAL_SERVER_ERROR, "Internal server error")
}

} // verus!
