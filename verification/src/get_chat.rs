//! The request that fetches a chat by reference.

use vstd::prelude::*;

verus! {

use crate::Error;
use crate::codec::lit;
use crate::codec::push_text;
use crate::http::HttpRequest;
use crate::http::HttpRequestV;
use crate::http::JsonEncodable;
use crate::http::JsonRequestType;
use crate::http::Method;
use crate::http::BodyV;
use crate::http::Request;
use crate::http::RequestType;
use crate::http::RequestUrl;
use crate::refs::ChatRef;
use crate::refs::ToChatRef;
use crate::refs::chat_ref_bytes;
use crate::types::Chat;

/// Get up-to-date information about the chat.
#[derive(Debug, Clone, PartialEq, Eq)]
pub struct GetChat {
    pub chat_id: ChatRef,
}

/// The JSON object of the request: the single target reference, encoded in
/// its natural wire shape.
pub open spec fn get_chat_json(q: GetChat) -> Seq<u8> {
    lit("{\"chat_id\":") + chat_ref_bytes(q.chat_id@) + lit("}")
}

impl GetChat {
    /// Builds the request against anything that can stand for a chat.
    pub fn new<C: ToChatRef>(chat: C) -> (r: GetChat)
        ensures
            r.chat_id@ == chat.chat_ref_spec(),
    {
        GetChat { chat_id: chat.to_chat_ref() }
    }
}

impl JsonEncodable for GetChat {
    open spec fn json_spec(&self) -> Seq<u8> {
        get_chat_json(*self)
    }

    fn write_json(&self, out: &mut Vec<u8>) {
        push_text(out, "{\"chat_id\":");
        let mut encoded = self.chat_id.encode_json();
        out.append(&mut encoded);
        push_text(out, "}");
        proof {
            assert(out@ =~= old(out)@ + self.json_spec());
        }
    }
}

impl Request for GetChat {
    type Type = JsonRequestType<Self>;

    type Response = Chat;

    open spec fn envelope_spec(&self) -> HttpRequestV {
        HttpRequestV {
            url: "getChat"@,
            method: Method::Post,
            body: BodyV::Json(get_chat_json(*self)),
        }
    }

    fn serialize(&self) -> (r: Result<HttpRequest, Error>) {
        JsonRequestType::<Self>::serialize(RequestUrl::method("getChat"), self)
    }
}

/// Capability sugar: anything that can stand for a chat can be fetched.
pub trait CanGetChat: Sized {
    /// The reference of the chat this value stands for.
    spec fn chat_target_spec(&self) -> crate::refs::ChatRefV;

    fn get_chat(&self) -> (r: GetChat)
        ensures
            r.chat_id@ == self.chat_target_spec(),
    ;
}

impl<C: ToChatRef> CanGetChat for C {
    open spec fn chat_target_spec(&self) -> crate::refs::ChatRefV {
        self.chat_ref_spec()
    }

    fn get_chat(&self) -> (r: GetChat) {
        GetChat { chat_id: self.to_chat_ref() }
    }
}

} // verus!
