//! The data of the bundled delivery backends: an HTTP ingestion endpoint and
//! a database. Their send operations live with the runtime.
use vstd::prelude::*;

use std::sync::Arc;

verus! {

/// The address of the ingestion endpoint of a dataset.
pub open spec fn ingest_url_of(dataset: Seq<char>) -> Seq<char> {
    "https://api.axiom.co/v1/datasets/"@ + dataset + "/ingest"@
}

/// The value of the authorization header for a token.
pub open spec fn bearer_of(token: Seq<char>) -> Seq<char> {
    "Bearer "@ + token
}

/// A backend that posts each batch as JSON to a dataset's ingestion endpoint,
/// authenticated by a bearer token.
pub struct AxiomProvider {
    auth_token: String,
    dataset: String,
}

impl AxiomProvider {
    pub closed spec fn token(&self) -> Seq<char> {
        self.auth_token@
    }

    pub closed spec fn dataset_name(&self) -> Seq<char> {
        self.dataset@
    }

    pub fn new(auth_token: String, dataset: String) -> (r: AxiomProvider)
        ensures
            r.token() == auth_token@,
            r.dataset_name() == dataset@,
    {
        AxiomProvider { auth_token, dataset }
    }

    /// Where the batches of this backend are posted.
    pub fn ingest_url(&self) -> (r: String)
        ensures
            r@ == ingest_url_of(self.dataset_name()),
    {
        proof {
            reveal_strlit("https://api.axiom.co/v1/datasets/");
            reveal_strlit("/ingest");
        }
        let mut url = "https://api.axiom.co/v1/datasets/".to_owned();
        url.append(self.dataset.as_str());
        url.append("/ingest");
        url
    }

    /// The authorization header value sent with every batch.
    pub fn authorization(&self) -> (r: String)
        ensures
            r@ == bearer_of(self.token()),
    {
        proof {
            reveal_strlit("Bearer ");
        }
        let mut value = "Bearer ".to_owned();
        value.append(self.auth_token.as_str());
        value
    }
}

/// A backend that stores each record in a database.
pub struct DbProvider {
    db_conn: String,
}

impl DbProvider {
    pub closed spec fn connection(&self) -> Seq<char> {
        self.db_conn@
    }

    /// A shared handle to a database backend with no connection configured.
    pub fn new() -> (r: Arc<DbProvider>)
        ensures
            r.connection() == Seq::<char>::empty(),
    {
        let db_conn = String::new();
        Arc::new(DbProvider { db_conn })
    }
}

} // verus!
