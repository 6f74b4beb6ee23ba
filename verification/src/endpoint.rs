//! The request-construction half of the client façade. An `Endpoint` holds
//! the immutable base URL and optional secret; one method per server
//! operation maps the call's arguments to a complete description of the HTTP
//! request to issue — method, URL, query parameters, body and multipart file
//! name. The transport that executes the plans, and the interpreter that maps
//! their responses back (`crate::response`), stand on either side of it.

use vstd::prelude::*;
use crate::errors::Error;
use crate::query::{param_views, params_spec, body_spec, QueryBuilder};
use crate::urls::{api_url, api_url_spec};

verus! {

/// The HTTP method of a request plan.
#[derive(Debug, Clone, Copy, PartialEq, Eq, Structural)]
pub enum Method {
    Get,
    Put,
    Post,
    Delete,
    Head,
}

/// Everything the transport needs to issue one request: the method, the full
/// URL, the query parameters to append, an optional JSON body, and — for the
/// two upload operations — the file name of the single multipart part named
/// `file`. A plan never carries the caller's own document: encoding that is
/// the transport's serializer's work.
#[derive(Debug)]
pub struct RequestPlan {
    pub method: Method,
    pub url: String,
    pub params: Vec<(String, String)>,
    pub body: Option<String>,
    pub file_name: Option<String>,
}

/// One write of a batch: `key` receives `value`. A sequence of these is
/// submitted as one atomic request — one HTTP call, one outcome.
#[derive(Debug)]
pub struct BatchOperation<T> {
    pub key: String,
    pub value: T,
}

/// The name of the header that carries the secret when one is configured.
pub open spec fn secret_header_name() -> Seq<char> {
    "X-SECRET-KEY"@
}

/// The store's endpoint: a base URL and an optional static secret, immutable
/// for the lifetime of a client. Every request plan is built against it.
#[derive(Debug, Clone)]
pub struct Endpoint {
    pub base: String,
    pub secret: Option<String>,
}

/// A plan with neither parameters, body nor file: the common case.
pub open spec fn bare_plan(r: RequestPlan, method: Method, url: Seq<char>) -> bool {
    &&& r.method == method
    &&& r.url@ == url
    &&& r.params@ == Seq::<(String, String)>::empty()
    &&& r.body is None
    &&& r.file_name is None
}

fn empty_plan(method: Method, url: String) -> (r: RequestPlan)
    ensures
        bare_plan(r, method, url@),
{
    RequestPlan { method, url, params: Vec::new(), body: None, file_name: None }
}

/// `collection + "/" + key`: a key's path inside its collection. The key may
/// itself contain separators; they stay part of the key.
pub fn key_path(collection: &str, key: &str) -> (r: String)
    ensures
        r@ == collection@ + "/"@ + key@,
{
    let r = String::from_str(collection).concat("/").concat(key);
    proof {
        assert(r@ =~= collection@ + "/"@ + key@);
    }
    r
}

impl Endpoint {
    /// An endpoint for `base`, authenticated when a secret is given.
    pub fn new(base: &str, secret: Option<&str>) -> (e: Self)
        ensures
            e.base@ == base@,
            match secret {
                Some(s) => e.secret matches Some(t) && t@ == s@,
                None => e.secret is None,
            },
    {
        let secret_owned = match secret {
            Some(s) => Some(s.to_owned()),
            None => None,
        };
        Endpoint { base: base.to_owned(), secret: secret_owned }
    }

    /// The one header an authenticated endpoint adds to every request, or
    /// nothing at all when no secret is configured.
    pub fn auth_header(&self) -> (r: Option<(String, String)>)
        ensures
            match self.secret {
                Some(s) => r matches Some(h) && h.0@ == secret_header_name() && h.1@ == s@,
                None => r is None,
            },
    {
        match &self.secret {
            Some(s) => Some((String::from_str("X-SECRET-KEY"), s.clone())),
            None => None,
        }
    }

    /// The existence check for a collection: HEAD on the collection path. Its
    /// outcome is the plain success boolean (`crate::response::is_success`).
    pub fn collection_exists_request(&self, name: &str) -> (r: RequestPlan)
        ensures
            bare_plan(r, Method::Head, api_url_spec(self.base@, name@)),
    {
        empty_plan(Method::Head, api_url(self.base.as_str(), name))
    }

    /// Creating a collection: PUT on the collection path. A 409 response
    /// interprets to `AlreadyExists`.
    pub fn create_collection_request(&self, name: &str) -> (r: RequestPlan)
        ensures
            bare_plan(r, Method::Put, api_url_spec(self.base@, name@)),
    {
        empty_plan(Method::Put, api_url(self.base.as_str(), name))
    }

    /// Dropping a collection: DELETE on the collection path. A 404 response
    /// interprets to `NotFound`.
    pub fn drop_collection_request(&self, name: &str) -> (r: RequestPlan)
        ensures
            bare_plan(r, Method::Delete, api_url_spec(self.base@, name@)),
    {
        empty_plan(Method::Delete, api_url(self.base.as_str(), name))
    }

    /// Listing a collection: GET on the collection path with the builder
    /// flattened into query parameters; the filter expression is omitted in
    /// this form.
    pub fn list_collection_request(&self, name: &str, query: &QueryBuilder) -> (r: RequestPlan)
        ensures
            r.method == Method::Get,
            r.url@ == api_url_spec(self.base@, name@),
            param_views(r.params@) == params_spec(*query),
            r.body is None,
            r.file_name is None,
    {
        RequestPlan {
            method: Method::Get,
            url: api_url(self.base.as_str(), name),
            params: query.to_params(),
            body: None,
            file_name: None,
        }
    }

    /// An expression query: POST on the collection path with the builder
    /// serialized as the JSON body, filter expression included when
    /// non-empty.
    pub fn query_collection_request(&self, name: &str, query: &QueryBuilder) -> (r: RequestPlan)
        ensures
            r.method == Method::Post,
            r.url@ == api_url_spec(self.base@, name@),
            r.params@ == Seq::<(String, String)>::empty(),
            r.body matches Some(b) && b@ == body_spec(*query),
            r.file_name is None,
    {
        RequestPlan {
            method: Method::Post,
            url: api_url(self.base.as_str(), name),
            params: Vec::new(),
            body: Some(query.to_body()),
            file_name: None,
        }
    }

    /// Reading one key: GET on `{collection}/{key}`. A 404 response
    /// interprets to `NotFound`.
    pub fn get_request(&self, collection: &str, key: &str) -> (r: RequestPlan)
        ensures
            bare_plan(r, Method::Get, api_url_spec(self.base@, collection@ + "/"@ + key@)),
    {
        let path = key_path(collection, key);
        empty_plan(Method::Get, api_url(self.base.as_str(), path.as_str()))
    }

    /// Writing one key: PUT on `{collection}/{key}`; the caller's document
    /// rides as the JSON body.
    pub fn put_request(&self, collection: &str, key: &str) -> (r: RequestPlan)
        ensures
            bare_plan(r, Method::Put, api_url_spec(self.base@, collection@ + "/"@ + key@)),
    {
        let path = key_path(collection, key);
        empty_plan(Method::Put, api_url(self.base.as_str(), path.as_str()))
    }

    /// Deleting one key: DELETE on `{collection}/{key}`. Its outcome is the
    /// plain success boolean: absence is not an error for this call.
    pub fn delete_request(&self, collection: &str, key: &str) -> (r: RequestPlan)
        ensures
            bare_plan(r, Method::Delete, api_url_spec(self.base@, collection@ + "/"@ + key@)),
    {
        let path = key_path(collection, key);
        empty_plan(Method::Delete, api_url(self.base.as_str(), path.as_str()))
    }

    /// The existence check for one key: HEAD on `{collection}/{key}`, with
    /// the plain success boolean as its outcome.
    pub fn exists_request(&self, collection: &str, key: &str) -> (r: RequestPlan)
        ensures
            bare_plan(r, Method::Head, api_url_spec(self.base@, collection@ + "/"@ + key@)),
    {
        let path = key_path(collection, key);
        empty_plan(Method::Head, api_url(self.base.as_str(), path.as_str()))
    }

    /// A batch write: PUT on `{collection}/_batch`; the sequence of batch
    /// operations rides as one JSON array body, all-or-nothing.
    pub fn batch_put_request(&self, collection: &str) -> (r: RequestPlan)
        ensures
            bare_plan(r, Method::Put, api_url_spec(self.base@, collection@ + "/_batch"@)),
    {
        let path = String::from_str(collection).concat("/_batch");
        empty_plan(Method::Put, api_url(self.base.as_str(), path.as_str()))
    }

    /// A bulk import: POST on `{collection}/_import` as a multipart upload of
    /// one part named `file` with file name `backup.sst`, plus an optional
    /// `key` parameter naming which document field keys the imported records.
    pub fn import_request(&self, collection: &str, key: Option<&str>) -> (r: RequestPlan)
        ensures
            r.method == Method::Post,
            r.url@ == api_url_spec(self.base@, collection@ + "/_import"@),
            match key {
                Some(k) => param_views(r.params@) == seq![("key"@, k@)],
                None => r.params@ == Seq::<(String, String)>::empty(),
            },
            r.body is None,
            r.file_name matches Some(f) && f@ == "backup.sst"@,
    {
        let path = String::from_str(collection).concat("/_import");
        let mut params: Vec<(String, String)> = Vec::new();
        match key {
            Some(k) => {
                params.push((String::from_str("key"), k.to_owned()));
                proof {
                    assert(param_views(params@) =~= seq![("key"@, k@)]);
                }
            },
            None => {},
        }
        RequestPlan {
            method: Method::Post,
            url: api_url(self.base.as_str(), path.as_str()),
            params,
            body: None,
            file_name: Some(String::from_str("backup.sst")),
        }
    }

    /// Subscribing to a collection's change feed: GET on
    /// `{collection}/_subscribe`; the response stays a stream and is handed
    /// to the feed decoder, not the interpreter.
    pub fn subscribe_request(&self, collection: &str) -> (r: RequestPlan)
        ensures
            bare_plan(r, Method::Get, api_url_spec(self.base@, collection@ + "/_subscribe"@)),
    {
        let path = String::from_str(collection).concat("/_subscribe");
        empty_plan(Method::Get, api_url(self.base.as_str(), path.as_str()))
    }

    /// Starting a backup: POST on `{collection}/_backup`; the server answers
    /// with the job's status document.
    pub fn start_backup_request(&self, collection: &str) -> (r: RequestPlan)
        ensures
            bare_plan(r, Method::Post, api_url_spec(self.base@, collection@ + "/_backup"@)),
    {
        let path = String::from_str(collection).concat("/_backup");
        empty_plan(Method::Post, api_url(self.base.as_str(), path.as_str()))
    }

    /// Polling a backup job: GET on `{collection}/_backup/status?id={id}`.
    /// The status is always re-fetched, never cached.
    pub fn backup_status_request(&self, collection: &str, id: &str) -> (r: RequestPlan)
        ensures
            bare_plan(
                r,
                Method::Get,
                api_url_spec(self.base@, collection@ + "/_backup/status?id="@ + id@),
            ),
    {
        let path = String::from_str(collection).concat("/_backup/status?id=").concat(id);
        proof {
            assert(path@ =~= collection@ + "/_backup/status?id="@ + id@);
        }
        empty_plan(Method::Get, api_url(self.base.as_str(), path.as_str()))
    }

    /// Downloading a backup artifact. This is the one exception to the
    /// `/api/` convention: artifacts are served as static files from
    /// `{base}/backups/{collection}-{id}.sst`.
    pub fn download_backup_url(&self, collection: &str, backup_id: &str) -> (r: String)
        ensures
            r@ == self.base@ + "/backups/"@ + collection@ + "-"@ + backup_id@ + ".sst"@,
    {
        let r = String::from_str(self.base.as_str()).concat("/backups/").concat(
            collection,
        ).concat("-").concat(backup_id).concat(".sst");
        proof {
            assert(r@ =~= self.base@ + "/backups/"@ + collection@ + "-"@ + backup_id@ + ".sst"@);
        }
        r
    }

    /// Uploading a backup artifact: POST on `{collection}/_backup/upload` as
    /// a multipart upload of one part named `file` with file name
    /// `{collection}-backup.sst`.
    pub fn upload_backup_request(&self, collection: &str) -> (r: RequestPlan)
        ensures
            r.method == Method::Post,
            r.url@ == api_url_spec(self.base@, collection@ + "/_backup/upload"@),
            r.params@ == Seq::<(String, String)>::empty(),
            r.body is None,
            r.file_name matches Some(f) && f@ == collection@ + "-backup.sst"@,
    {
        let path = String::from_str(collection).concat("/_backup/upload");
        RequestPlan {
            method: Method::Post,
            url: api_url(self.base.as_str(), path.as_str()),
            params: Vec::new(),
            body: None,
            file_name: Some(String::from_str(collection).concat("-backup.sst")),
        }
    }

    /// Starting a restore from a backup:
    /// POST on `{collection}/_restore?backup_id={id}`.
    pub fn start_restore_request(&self, collection: &str, id: &str) -> (r: RequestPlan)
        ensures
            bare_plan(
                r,
                Method::Post,
                api_url_spec(self.base@, collection@ + "/_restore?backup_id="@ + id@),
            ),
    {
        let path = String::from_str(collection).concat("/_restore?backup_id=").concat(id);
        proof {
            assert(path@ =~= collection@ + "/_restore?backup_id="@ + id@);
        }
        empty_plan(Method::Post, api_url(self.base.as_str(), path.as_str()))
    }

    /// Polling a restore job: GET on `{collection}/_restore/status?id={id}`.
    pub fn restore_status_request(&self, collection: &str, id: &str) -> (r: RequestPlan)
        ensures
            bare_plan(
                r,
                Method::Get,
                api_url_spec(self.base@, collection@ + "/_restore/status?id="@ + id@),
            ),
    {
        let path = String::from_str(collection).concat("/_restore/status?id=").concat(id);
        proof {
            assert(path@ =~= collection@ + "/_restore/status?id="@ + id@);
        }
        empty_plan(Method::Get, api_url(self.base.as_str(), path.as_str()))
    }
}

/// What a subscribe call returns for the status code of its response: on 200
/// the stream is kept; on anything else the collection is reported missing.
pub fn subscribe_outcome(status: u16, collection: &str) -> (r: Result<(), Error>)
    ensures
        status == 200 ==> r is Ok,
        status != 200 ==> (r matches Err(Error::NotFound(c)) && c@ == collection@),
{
    if status == 200 {
        Ok(())
    } else {
        Err(Error::NotFound(collection.to_owned()))
    }
}

/// What a download call returns for the status code of its response: on 200
/// the artifact's bytes are kept; a 404 reports the backup id missing; any
/// other status is a server error with that code.
pub fn download_outcome(status: u16, backup_id: &str) -> (r: Result<(), Error>)
    ensures
        status == 200 ==> r is Ok,
        status == 404 ==> (r matches Err(Error::NotFound(b)) && b@ == backup_id@),
        status != 200 && status != 404 ==> r == Err::<(), Error>(Error::Server(status)),
{
    if status == 200 {
        Ok(())
    } else if status == 404 {
        Err(Error::NotFound(backup_id.to_owned()))
    } else {
        Err(Error::Server(status))
    }
}

/// Law: a read asks the server for exactly the resource a write stored — for
/// one endpoint, collection and key, the put and get plans share one URL, so
/// whatever document the server keeps under that resource is what a later
/// read requests.
pub proof fn lemma_put_get_one_resource(
    put: RequestPlan,
    get: RequestPlan,
    base: Seq<char>,
    collection: Seq<char>,
    key: Seq<char>,
)
    requires
        bare_plan(put, Method::Put, api_url_spec(base, collection + "/"@ + key)),
        bare_plan(get, Method::Get, api_url_spec(base, collection + "/"@ + key)),
    ensures
        put.url@ == get.url@,
{
}

} // verus!
