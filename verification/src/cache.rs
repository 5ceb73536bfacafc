//! The cache as the console sees it: the operations it can be asked for and
//! the answers it gives. The cache itself lives outside this crate; whoever
//! drives the session performs each request and hands the reply back.

use crate::error::CacheError;
use crate::json::JsonText;
use vstd::prelude::*;

verus! {

/// One known peer, as the cache reports it.
#[derive(PartialEq, Eq, Debug)]
pub struct PeerRecord {
    pub peer_id: String,
    pub hash: u64,
    pub last_seen: u128,
}

/// A [`PeerRecord`] as a mathematical value.
pub struct PeerRecordView {
    pub peer_id: Seq<char>,
    pub hash: nat,
    pub last_seen: nat,
}

impl View for PeerRecord {
    type V = PeerRecordView;

    open spec fn view(&self) -> PeerRecordView {
        PeerRecordView {
            peer_id: self.peer_id@,
            hash: self.hash as nat,
            last_seen: self.last_seen as nat,
        }
    }
}

/// The views of a list of peers.
pub open spec fn peer_views(peers: Seq<PeerRecord>) -> Seq<PeerRecordView> {
    Seq::new(peers.len(), |i: int| peers[i]@)
}

/// An operation of the cache.
#[derive(PartialEq, Eq, Debug)]
pub enum Request {
    /// Read the current hash.
    GetHash,
    /// Read the known peers.
    Peers,
    /// Publish a value without storing it.
    Send { value: JsonText },
    /// Store a value under a topic and a uuid.
    Put { topic: String, uuid: String, value: JsonText },
    /// Remove what is stored under a topic and a uuid.
    Del { topic: String, uuid: String },
}

/// A [`Request`] as a mathematical value.
pub enum RequestView {
    GetHash,
    Peers,
    Send { value: Seq<char> },
    Put { topic: Seq<char>, uuid: Seq<char>, value: Seq<char> },
    Del { topic: Seq<char>, uuid: Seq<char> },
}

impl View for Request {
    type V = RequestView;

    open spec fn view(&self) -> RequestView {
        match self {
            Request::GetHash => RequestView::GetHash,
            Request::Peers => RequestView::Peers,
            Request::Send { value } => RequestView::Send { value: value@ },
            Request::Put { topic, uuid, value } => RequestView::Put {
                topic: topic@,
                uuid: uuid@,
                value: value@,
            },
            Request::Del { topic, uuid } => RequestView::Del { topic: topic@, uuid: uuid@ },
        }
    }
}

/// What the cache answers.
#[derive(PartialEq, Eq, Debug)]
pub enum Reply {
    /// The current hash.
    Hash(u64),
    /// The known peers.
    Peers(Vec<PeerRecord>),
    /// How publishing, storing or removing went.
    Done(Result<(), CacheError>),
}

/// A [`Reply`] as a mathematical value.
pub enum ReplyView {
    Hash(nat),
    Peers(Seq<PeerRecordView>),
    Done(Result<(), Seq<char>>),
}

impl View for Reply {
    type V = ReplyView;

    open spec fn view(&self) -> ReplyView {
        match self {
            Reply::Hash(hash) => ReplyView::Hash(*hash as nat),
            Reply::Peers(peers) => ReplyView::Peers(peer_views(peers@)),
            Reply::Done(outcome) => ReplyView::Done(
                match outcome {
                    Ok(_) => Ok(()),
                    Err(e) => Err(e@),
                },
            ),
        }
    }
}

} // verus!
