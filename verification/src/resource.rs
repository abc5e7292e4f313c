//! Resources that can be fetched from the database, and what fetching each
//! one involves.

use vstd::prelude::*;
use crate::listen::Listen;

verus! {

/// A resource which can be fetched from a database connection.
#[derive(Debug, PartialEq, Eq, Hash)]
pub enum Resource {
    /// Font resource.
    ///
    /// * Listen specification.
    /// * SQL query.
    Font(Listen, &'static str),
    /// Graphic resource.
    ///
    /// * Listen specification.
    /// * SQL query.
    Graphic(Listen, &'static str),
    /// RNode resource.
    ///
    /// * Listen specification.
    RNode(Listen),
    /// Road resource.
    ///
    /// * Listen specification.
    Road(Listen),
    /// Simple file resource.
    ///
    /// * File name.
    /// * Listen specification.
    /// * SQL query.
    Simple(&'static str, Listen, &'static str),
    /// Sign message resource.
    ///
    /// * Listen specification.
    /// * SQL query.
    SignMsg(Listen, &'static str),
}

/// What has to be done to bring one resource up to date.
#[derive(Debug, PartialEq, Eq)]
pub enum FetchJob<'a> {
    /// Run the query; encode each row as a font file.
    Fonts(&'static str),
    /// Run the query; encode each row as an image file.
    Graphics(&'static str),
    /// Send every road node to the segment sink, as one ordered batch.
    AllNodes,
    /// Send one road node, or its removal, to the segment sink.
    OneNode(&'a str),
    /// Send every road to the segment sink.
    AllRoads,
    /// Send one road to the segment sink.
    OneRoad(&'a str),
    /// Run the query and publish the rows as a JSON array under the
    /// file name.
    File(&'static str, &'static str),
    /// As `File` for the sign messages, then render their previews.
    SignMsgs(&'static str, &'static str),
}

/// File name of the sign message resource.
pub const SIGN_MESSAGE_FILE: &'static str = "sign_message";

impl Resource {
    /// The trigger rule of the resource.
    pub open spec fn rule(&self) -> Listen {
        match *self {
            Resource::Font(lsn, _) => lsn,
            Resource::Graphic(lsn, _) => lsn,
            Resource::RNode(lsn) => lsn,
            Resource::Road(lsn) => lsn,
            Resource::Simple(_, lsn, _) => lsn,
            Resource::SignMsg(lsn, _) => lsn,
        }
    }

    /// The resource is fetched with a query of its own.
    pub open spec fn has_sql(&self) -> bool {
        !(*self is RNode) && !(*self is Road)
    }

    /// The query of a resource that has one.
    pub open spec fn query(&self) -> &'static str
        recommends
            self.has_sql(),
    {
        match *self {
            Resource::Font(_, sql) => sql,
            Resource::Graphic(_, sql) => sql,
            Resource::Simple(_, _, sql) => sql,
            Resource::SignMsg(_, sql) => sql,
            _ => "",
        }
    }

    /// What fetching the resource for `payload` involves: an empty payload
    /// asks for everything, any other names one road node or road.
    pub open spec fn job<'a>(&self, payload: &'a str) -> FetchJob<'a> {
        match *self {
            Resource::Font(_, sql) => FetchJob::Fonts(sql),
            Resource::Graphic(_, sql) => FetchJob::Graphics(sql),
            Resource::RNode(_) => if payload@.len() == 0 {
                FetchJob::AllNodes
            } else {
                FetchJob::OneNode(payload)
            },
            Resource::Road(_) => if payload@.len() == 0 {
                FetchJob::AllRoads
            } else {
                FetchJob::OneRoad(payload)
            },
            Resource::Simple(n, _, sql) => FetchJob::File(n, sql),
            Resource::SignMsg(_, sql) => FetchJob::SignMsgs(SIGN_MESSAGE_FILE, sql),
        }
    }

    /// Get the listen value
    pub fn listen(&self) -> (r: &Listen)
        ensures
            *r == self.rule(),
    {
        match self {
            Resource::Font(lsn, _) => lsn,
            Resource::Graphic(lsn, _) => lsn,
            Resource::RNode(lsn) => lsn,
            Resource::Road(lsn) => lsn,
            Resource::Simple(_, lsn, _) => lsn,
            Resource::SignMsg(lsn, _) => lsn,
        }
    }

    /// Get the SQL value
    pub fn sql(&self) -> (r: &'static str)
        requires
            self.has_sql(),
        ensures
            r == self.query(),
    {
        match self {
            Resource::Font(_, sql) => sql,
            Resource::Graphic(_, sql) => sql,
            Resource::Simple(_, _, sql) => sql,
            Resource::SignMsg(_, sql) => sql,
            _ => "",
        }
    }

    /// Say what fetching the resource involves.
    ///
    /// * `payload` Notification payload; empty to fetch everything.
    pub fn fetch<'a>(&self, payload: &'a str) -> (r: FetchJob<'a>)
        ensures
            r == self.job(payload),
    {
        match self {
            Resource::Font(_, sql) => FetchJob::Fonts(sql),
            Resource::Graphic(_, sql) => FetchJob::Graphics(sql),
            Resource::RNode(_) => self.fetch_nodes(payload),
            Resource::Road(_) => self.fetch_roads(payload),
            Resource::Simple(n, _, sql) => FetchJob::File(n, sql),
            Resource::SignMsg(_, sql) => FetchJob::SignMsgs(SIGN_MESSAGE_FILE, sql),
        }
    }

    /// Fetching the road nodes: all of them, or the one that the payload
    /// names.
    pub fn fetch_nodes<'a>(&self, payload: &'a str) -> (r: FetchJob<'a>)
        ensures
            r == if payload@.len() == 0 {
                FetchJob::AllNodes
            } else {
                FetchJob::OneNode(payload)
            },
    {
        if payload.is_empty() {
            FetchJob::AllNodes
        } else {
            FetchJob::OneNode(payload)
        }
    }

    /// Fetching the roads: all of them, or the one that the payload names.
    pub fn fetch_roads<'a>(&self, payload: &'a str) -> (r: FetchJob<'a>)
        ensures
            r == if payload@.len() == 0 {
                FetchJob::AllRoads
            } else {
                FetchJob::OneRoad(payload)
            },
    {
        if payload.is_empty() {
            FetchJob::AllRoads
        } else {
            FetchJob::OneRoad(payload)
        }
    }
}

} // verus!
