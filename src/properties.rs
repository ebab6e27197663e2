use vstd::prelude::*;

verus! {

/// The metadata that travels beside a message's payload (content type,
/// headers, delivery mode and the like). Every field is optional; an unset
/// field is `None`.
#[derive(Debug, Clone, PartialEq)]
pub struct Properties {
    pub content_type: Option<String>,
    pub content_encoding: Option<String>,
    pub headers: Option<std::collections::HashMap<String, amqp::TableEntry>>,
    pub delivery_mode: Option<u8>,
    pub priority: Option<u8>,
    pub correlation_id: Option<String>,
    pub reply_to: Option<String>,
    pub expiration: Option<String>,
    pub message_id: Option<String>,
    pub timestamp: Option<u64>,
    pub message_type: Option<String>,
    pub user_id: Option<String>,
    pub app_id: Option<String>,
    pub cluster_id: Option<String>,
}

/// A header value of the wire protocol, carried through unread.
#[verifier::external_type_specification]
#[verifier::external_body]
pub struct ExTableEntry(amqp::TableEntry);

/// True when every field of `p` is unset.
pub open spec fn is_empty_properties(p: Properties) -> bool {
    &&& p.content_type is None
    &&& p.content_encoding is None
    &&& p.headers is None
    &&& p.delivery_mode is None
    &&& p.priority is None
    &&& p.correlation_id is None
    &&& p.reply_to is None
    &&& p.expiration is None
    &&& p.message_id is None
    &&& p.timestamp is None
    &&& p.message_type is None
    &&& p.user_id is None
    &&& p.app_id is None
    &&& p.cluster_id is None
}

/// The content type of a JSON payload.
pub open spec fn json_content_type() -> Seq<char> {
    "application/json"@
}

/// True when `p` sets the content type to `application/json` and nothing else.
pub open spec fn is_json_properties(p: Properties) -> bool {
    &&& p.content_type matches Some(ct) && ct@ == json_content_type()
    &&& is_empty_properties(Properties { content_type: None, ..p })
}

impl Properties {
    /// The property set with every field unset.
    pub fn empty() -> (r: Properties)
        ensures
            is_empty_properties(r),
    {
        Properties {
            content_type: None,
            content_encoding: None,
            headers: None,
            delivery_mode: None,
            priority: None,
            correlation_id: None,
            reply_to: None,
            expiration: None,
            message_id: None,
            timestamp: None,
            message_type: None,
            user_id: None,
            app_id: None,
            cluster_id: None,
        }
    }

    /// The property set of a JSON payload: content type `application/json`,
    /// every other field unset.
    pub fn json() -> (r: Properties)
        ensures
            is_json_properties(r),
    {
        let ct = "application/json".to_owned();
        proof {
            reveal_strlit("application/json");
        }
        Properties { content_type: Some(ct), ..Properties::empty() }
    }
}

} // verus!
