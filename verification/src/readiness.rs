//! The result of startup and the write-once cell that hands it to readers.

use vstd::prelude::*;

verus! {

/// How to reach the server once startup has succeeded.
#[derive(Debug, PartialEq, Eq)]
pub struct ServerReadyData {
    /// Address of the server.
    pub url: String,
    /// Credential to present, if the server asks for one.
    pub password: Option<String>,
}

/// Mathematical content of a [`ServerReadyData`].
pub struct ServerReadyDataView {
    pub url: Seq<char>,
    pub password: Option<Seq<char>>,
}

/// Mathematical content of a startup result: the connection data, or the
/// message that explains the failure.
pub type ReadinessView = Result<ServerReadyDataView, Seq<char>>;

impl View for ServerReadyData {
    type V = ServerReadyDataView;

    open spec fn view(&self) -> ServerReadyDataView {
        ServerReadyDataView {
            url: self.url@,
            password: match self.password {
                Some(password) => Some(password@),
                None => None,
            },
        }
    }
}

impl Clone for ServerReadyData {
    fn clone(&self) -> (copy: ServerReadyData)
        ensures
            copy@ == self@,
    {
        ServerReadyData {
            url: self.url.clone(),
            password: match &self.password {
                Some(password) => Some(password.clone()),
                None => None,
            },
        }
    }
}

/// Content of a startup result.
pub open spec fn readiness_view(result: Result<ServerReadyData, String>) -> ReadinessView {
    match result {
        Ok(data) => Ok(data@),
        Err(message) => Err(message@),
    }
}

/// A copy of a startup result with the same content.
pub fn clone_readiness(result: &Result<ServerReadyData, String>) -> (copy: Result<
    ServerReadyData,
    String,
>)
    ensures
        readiness_view(copy) == readiness_view(*result),
{
    match result {
        Ok(data) => Ok(data.clone()),
        Err(message) => Err(message.clone()),
    }
}

/// The cell after `result` has been offered to it: the first offer fills the
/// cell and every later one leaves it as it is.
pub open spec fn offer(cell: Option<ReadinessView>, result: ReadinessView) -> Option<
    ReadinessView,
> {
    match cell {
        Some(_) => cell,
        None => Some(result),
    }
}

/// The cell after each of `results` has been offered to it in turn.
pub open spec fn offer_all(cell: Option<ReadinessView>, results: Seq<ReadinessView>) -> Option<
    ReadinessView,
>
    decreases results.len(),
{
    if results.len() == 0 {
        cell
    } else {
        offer_all(offer(cell, results[0]), results.drop_first())
    }
}

/// A cell that is written at most once and read any number of times.
///
/// Readers that ask before the result is published find nothing yet; all
/// readers that ask afterwards get a copy of the one published result.
pub struct ReadinessBroadcaster {
    cell: Option<Result<ServerReadyData, String>>,
}

impl View for ReadinessBroadcaster {
    type V = Option<ReadinessView>;

    closed spec fn view(&self) -> Option<ReadinessView> {
        match self.cell {
            Some(result) => Some(readiness_view(result)),
            None => None,
        }
    }
}

impl ReadinessBroadcaster {
    /// A cell with nothing published.
    pub fn new() -> (broadcaster: ReadinessBroadcaster)
        ensures
            broadcaster@ is None,
    {
        ReadinessBroadcaster { cell: None }
    }

    /// Whether a result has been published.
    pub fn is_published(&self) -> (published: bool)
        ensures
            published == (self@ is Some),
    {
        self.cell.is_some()
    }

    /// Publishes `result` if nothing has been published yet, and says
    /// whether it did.  A cell that already holds a result keeps it.
    pub fn publish(&mut self, result: Result<ServerReadyData, String>) -> (accepted: bool)
        ensures
            final(self)@ == offer(old(self)@, readiness_view(result)),
            accepted == (old(self)@ is None),
    {
        if self.cell.is_some() {
            false
        } else {
            self.cell = Some(result);
            true
        }
    }

    /// A copy of the published result, or `None` while there is none.
    pub fn poll(&self) -> (found: Option<Result<ServerReadyData, String>>)
        ensures
            match found {
                Some(result) => self@ == Some(readiness_view(result)),
                None => self@ is None,
            },
    {
        match &self.cell {
            Some(result) => Some(clone_readiness(result)),
            None => None,
        }
    }
}

/// Once a result is in the cell, no sequence of further offers changes it.
pub proof fn lemma_published_is_final(cell: Option<ReadinessView>, results: Seq<ReadinessView>)
    requires
        cell is Some,
    ensures
        offer_all(cell, results) == cell,
    decreases results.len(),
{
    if results.len() > 0 {
        lemma_published_is_final(cell, results.drop_first());
    }
}

/// Whatever is offered to an empty cell, and however often, the cell ends up
/// holding the first offer: at most one publication is ever observed.
pub proof fn lemma_first_publish_wins(results: Seq<ReadinessView>)
    ensures
        offer_all(None, results) == if results.len() == 0 {
            None
        } else {
            Some(results[0])
        },
    decreases results.len(),
{
    if results.len() > 0 {
        lemma_published_is_final(Some(results[0]), results.drop_first());
    }
}

/// Readers that poll at any two moments of a cell's life, with any offers made
/// in between, never see two different results.
pub proof fn lemma_readers_agree(
    cell: Option<ReadinessView>,
    earlier: Seq<ReadinessView>,
    later: Seq<ReadinessView>,
)
    ensures
        offer_all(cell, earlier) is Some ==> offer_all(offer_all(cell, earlier), later)
            == offer_all(cell, earlier),
{
    if offer_all(cell, earlier) is Some {
        lemma_published_is_final(offer_all(cell, earlier), later);
    }
}

} // verus!
