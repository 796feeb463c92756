//! The conversation with the license server.
use crate::device::opt_view;
use crate::json::{bool_member, json_of, read_bool, read_text, text_member, Json, ObjectBuilder};
use vstd::prelude::*;
use vstd::string::*;

verus! {

/// The server's address.
pub const LICENSE_SERVER: &'static str = "https://kaikei-license.yuya1129t.workers.dev";

/// Where a key is activated.
pub const ACTIVATE_PATH: &'static str = "/activate";

/// Where an activated key is validated.
pub const VALIDATE_PATH: &'static str = "/validate";

/// The name under which every machine is registered.
pub const DEVICE_NAME: &'static str = "Windows PC";

/// The address of a service of the server.
pub fn service_url(path: &str) -> (r: String)
    ensures
        r@ == LICENSE_SERVER@ + path@,
{
    let mut r: String = LICENSE_SERVER.to_string();
    r.append(path);
    r
}

/// What is sent to the server.
pub open spec fn request(key: Seq<char>, device: Seq<char>) -> Json {
    Json::Object(
        Map::<Seq<char>, Json>::empty().insert("key"@, Json::Text(key)).insert(
            "device_id"@,
            Json::Text(device),
        ).insert("device_name"@, Json::Text(DEVICE_NAME@)),
    )
}

/// The request for `key` on the machine `device`.
pub fn request_body(key: &str, device: &str) -> (r: serde_json::Value)
    ensures
        json_of(r) == request(key@, device@),
{
    let mut body: ObjectBuilder = ObjectBuilder::new();
    body.set_text("key", key);
    body.set_text("device_id", device);
    body.set_text("device_name", DEVICE_NAME);
    body.build()
}

/// Reads the server's answer: its verdict, which is a refusal unless it says
/// otherwise, and its error text, if it gives one.
pub fn read_answer(v: &serde_json::Value) -> (r: (bool, Option<String>))
    ensures
        r.0 == (bool_member(json_of(*v), "ok"@) == Some(true)),
        opt_view(r.1) == text_member(json_of(*v), "error"@),
{
    let ok: bool = match read_bool(v, "ok") {
        Some(ok) => ok,
        None => false,
    };
    (ok, read_text(v, "error"))
}

/// A request says three things, each under a name of its own: the key, the
/// machine and the machine's name.
pub proof fn law_request_members(key: Seq<char>, device: Seq<char>)
    ensures
        text_member(request(key, device), "key"@) == Some(key),
        text_member(request(key, device), "device_id"@) == Some(device),
        text_member(request(key, device), "device_name"@) == Some(DEVICE_NAME@),
        request(key, device) matches Json::Object(m) && m.dom() == set!["key"@, "device_id"@, "device_name"@],
{
    reveal_strlit("key");
    reveal_strlit("device_id");
    reveal_strlit("device_name");
    assert("key"@.len() == 3 && "device_id"@.len() == 9 && "device_name"@.len() == 11);
    assert(request(key, device)->Object_0.dom() =~= set!["key"@, "device_id"@, "device_name"@]);
}

/// A service is asked for under the server's address.
pub proof fn law_service_url(path: &str, r: String)
    requires
        call_ensures(service_url, (path,), r),
    ensures
        r@ == "https://kaikei-license.yuya1129t.workers.dev"@ + path@,
{
}

/// What is sent for a key on a machine says the key, the machine and the name
/// of every machine, each under its own name, and nothing else.
pub proof fn law_request_says_key_and_machine(key: &str, device: &str, r: serde_json::Value)
    requires
        call_ensures(request_body, (key, device), r),
    ensures
        json_of(r) matches Json::Object(m) && m.dom() == set![
            "key"@,
            "device_id"@,
            "device_name"@,
        ] && m["key"@] == Json::Text(key@) && m["device_id"@] == Json::Text(device@)
            && m["device_name"@] == Json::Text("Windows PC"@),
{
    law_request_members(key@, device@);
}

/// The server's answer is a confirmation exactly if it is an object that says
/// `ok` is true, and the error told is the text under `error`, if there is one.
pub proof fn law_answer_is_read(v: serde_json::Value, r: (bool, Option<String>))
    requires
        call_ensures(read_answer, (&v,), r),
    ensures
        r.0 <==> (json_of(v) matches Json::Object(m) && m.dom().contains("ok"@) && m["ok"@]
            == Json::Bool(true)),
        match r.1 {
            Some(e) => json_of(v) matches Json::Object(m) && m.dom().contains("error"@)
                && m["error"@] == Json::Text(e@),
            None => json_of(v) matches Json::Object(m) ==> m.dom().contains("error"@) ==> !(
            m["error"@] is Text),
        },
{
}

}
