//! The gRPC `App` service: a key lookup whose server answers every request
//! with the same value.

use vstd::prelude::*;

verus! {

/// A lookup request: the name of the key asked for.
#[derive(Debug, PartialEq, Eq)]
pub struct Req {
    pub name: String,
}

/// A lookup response: the value found.
#[derive(Debug, PartialEq, Eq)]
pub struct Resp {
    pub value: String,
}

/// The value the server returns for every key.
pub open spec fn served_value() -> Seq<char> {
    "val1"@
}

/// The key the client asks for.
pub open spec fn requested_name() -> Seq<char> {
    "key1"@
}

/// The server side of the `App` service.
#[derive(Debug)]
pub struct MyServer {}

impl Default for MyServer {
    fn default() -> (r: MyServer)
        ensures
            r == (MyServer {}),
    {
        MyServer {}
    }
}

impl MyServer {
    /// Answers a lookup: whatever the key asked for, the value is `val1`.
    pub fn get(&self, request: Req) -> (response: Resp)
        ensures
            response.value@ == served_value(),
    {
        let _ = request;
        Resp { value: "val1".to_owned() }
    }
}

/// The request the client sends: a lookup of `key1`.
pub fn client_request() -> (request: Req)
    ensures
        request.name@ == requested_name(),
{
    Req { name: "key1".to_owned() }
}

} // verus!
