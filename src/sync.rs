use vstd::prelude::*;

verus! {

#[verifier::external_type_specification]
#[verifier::external_body]
pub struct ExJsonValue(serde_json::Value);

/// A JSON value as the library reads it. Numbers are kept only as such: no
/// decision looks at their value.
#[derive(Debug)]
pub enum Json {
    Null,
    Bool(bool),
    Number,
    Str(String),
    Array(Vec<Json>),
    /// Members in the order the parser gives them; keys are unique.
    Object(Vec<(String, Json)>),
}

/// The JSON value that `bytes` holds, or `None` where they hold none.
pub uninterp spec fn parsed_json(bytes: Seq<u8>) -> Option<Json>;

/// Relies on `serde_json::from_slice` (into `serde_json::Value`): the value
/// depends on the bytes alone. It is converted variant by variant.
#[verifier::external_body]
fn parse_json(bytes: &[u8]) -> (r: Option<Json>)
    ensures
        r == parsed_json(bytes@),
{
    serde_json::from_slice::<serde_json::Value>(bytes).ok().map(json_of_value)
}

/// Converts a `serde_json::Value`, one variant to one variant, for `parse_json`.
#[verifier::external_body]
fn json_of_value(v: serde_json::Value) -> Json {
    match v {
        serde_json::Value::Null => Json::Null,
        serde_json::Value::Bool(b) => Json::Bool(b),
        serde_json::Value::Number(_) => Json::Number,
        serde_json::Value::String(s) => Json::Str(s),
        serde_json::Value::Array(a) => Json::Array(a.into_iter().map(json_of_value).collect()),
        serde_json::Value::Object(o) => Json::Object(
            o.into_iter().map(|(k, v)| (k, json_of_value(v))).collect(),
        ),
    }
}

/// Member `i` is the first member of `fields` named `key`.
pub open spec fn first_field_at(fields: Seq<(String, Json)>, key: Seq<char>, i: int) -> bool {
    0 <= i < fields.len() && fields[i].0@ == key && forall|j: int|
        0 <= j < i ==> fields[j].0@ != key
}

/// The value of the member named `key`, if there is one.
pub open spec fn field(fields: Seq<(String, Json)>, key: Seq<char>) -> Option<Json> {
    if exists|i: int| first_field_at(fields, key, i) {
        Some(fields[choose|i: int| first_field_at(fields, key, i)].1)
    } else {
        None
    }
}

/// The user is a subscriber: the first element is an object whose
/// `subscription` member is present and not null.
pub open spec fn subscribed(user: Json) -> bool {
    match user {
        Json::Object(f) => match field(f@, "subscription"@) {
            Some(v) => !(v is Null),
            None => false,
        },
        _ => false,
    }
}

/// The `hostname` of an exit description: an object whose `hostname` member
/// is a string.
pub open spec fn exit_host(e: Json) -> Option<Seq<char>> {
    match e {
        Json::Object(f) => match field(f@, "hostname"@) {
            Some(Json::Str(h)) => Some(h@),
            _ => None,
        },
        _ => None,
    }
}

/// The hostnames of a list of exit descriptions, in order, or `None` where one
/// of them has none.
pub open spec fn exit_hosts(list: Seq<Json>) -> Option<Seq<Seq<char>>>
    decreases list.len(),
{
    if list.len() == 0 {
        Some(Seq::empty())
    } else {
        match (exit_hosts(list.drop_last()), exit_host(list.last())) {
            (Some(h), Some(x)) => Some(h.push(x)),
            _ => None,
        }
    }
}

/// What the `sync` output `j` (`None`: not JSON) gives: the subscription flag
/// and the hostnames of the tier's exit list, or the error.
pub open spec fn sync_outcome(j: Option<Json>) -> Result<(bool, Seq<Seq<char>>), SyncError> {
    match j {
        Some(Json::Array(items)) => if items@.len() < SYNC_ELEMENTS {
            Err(SyncError::TooFewElements)
        } else if !(items@[0] is Object) {
            Err(SyncError::BadUserInfo)
        } else {
            let list = if subscribed(items@[0]) { items@[1] } else { items@[2] };
            match list {
                Json::Array(l) => match exit_hosts(l@) {
                    Some(h) => Ok((subscribed(items@[0]), h)),
                    None => Err(SyncError::BadExitList),
                },
                _ => Err(SyncError::BadExitList),
            }
        },
        _ => Err(SyncError::BadJson),
    }
}

/// The texts of a list of strings.
pub open spec fn host_texts(v: Seq<String>) -> Seq<Seq<char>> {
    v.map_values(|a: String| a@)
}

/// Position of the first member named `key`.
fn find_field(fields: &Vec<(String, Json)>, key: &String) -> (r: Option<usize>)
    ensures
        match r {
            Some(i) => first_field_at(fields@, key@, i as int),
            None => forall|j: int| 0 <= j < fields@.len() ==> fields@[j].0@ != key@,
        },
        r matches Some(i) ==> field(fields@, key@) == Some(fields@[i as int].1),
        r is None ==> field(fields@, key@) is None,
{
    let mut i: usize = 0;
    while i < fields.len()
        invariant
            i <= fields@.len(),
            forall|j: int| 0 <= j < i ==> fields@[j].0@ != key@,
        decreases fields@.len() - i,
    {
        if fields[i].0 == *key {
            assert forall|m: int| first_field_at(fields@, key@, m) implies m == i by {
                if m < i {
                } else if m > i {
                    assert(fields@[i as int].0@ != key@);
                }
            }
            assert(first_field_at(fields@, key@, i as int));
            return Some(i);
        }
        i = i + 1;
    }
    None
}

/// Whether `user` is a subscriber.
fn is_subscribed(user: &Json) -> (r: bool)
    ensures
        r == subscribed(*user),
{
    match user {
        Json::Object(f) => {
            let key = "subscription".to_owned();
            match find_field(f, &key) {
                Some(i) => match &f[i].1 {
                    Json::Null => false,
                    _ => true,
                },
                None => false,
            }
        },
        _ => false,
    }
}

/// The `hostname` of an exit description.
fn host_of(e: &Json) -> (r: Option<String>)
    ensures
        match r {
            Some(h) => exit_host(*e) == Some(h@),
            None => exit_host(*e) is None,
        },
{
    match e {
        Json::Object(f) => {
            let key = "hostname".to_owned();
            match find_field(f, &key) {
                Some(i) => match &f[i].1 {
                    Json::Str(h) => Some(h.clone()),
                    _ => None,
                },
                None => None,
            }
        },
        _ => None,
    }
}

proof fn lemma_hosts_none_extends(list: Seq<Json>, i: int)
    requires
        0 <= i <= list.len(),
        exit_hosts(list.take(i)) is None,
    ensures
        exit_hosts(list) is None,
    decreases list.len(),
{
    if i == list.len() {
        assert(list.take(i) =~= list);
    } else {
        assert(list.drop_last().take(i) =~= list.take(i));
        lemma_hosts_none_extends(list.drop_last(), i);
    }
}

/// Relies on `fastrand::usize`: a uniformly drawn index below `len` (the range
/// must not be empty, else it panics).
#[verifier::external_body]
fn random_index(len: usize) -> (r: usize)
    requires
        len > 0,
    ensures
        r < len,
{
    fastrand::usize(..len)
}

/// Why the client's `sync` output could not be used. Each is fatal to the run.
#[derive(Clone, Copy, PartialEq, Eq, Debug, Structural)]
pub enum SyncError {
    /// The output is not a JSON array.
    BadJson,
    /// The array has fewer than the three expected elements.
    TooFewElements,
    /// The first element is not an object.
    BadUserInfo,
    /// The chosen exit list is not an array of objects with a `hostname` string.
    BadExitList,
    /// The chosen exit list is empty.
    NoExits,
}

/// The number of elements that the `sync` array must have at least.
pub const SYNC_ELEMENTS: usize = 3;

/// What the prober takes from the client's `sync` output.
#[derive(Debug)]
pub struct SyncInfo {
    /// The account has a subscription.
    pub is_plus: bool,
    /// Hostnames of the exits of the account's tier, in the order given.
    pub exits: Vec<String>,
}

/// Where the exit list of the account's tier stands in the `sync` array of
/// `n` elements: the second element for subscribers, the third otherwise.
pub open spec fn exit_list_position(n: nat, is_plus: bool) -> Result<nat, SyncError> {
    if n < SYNC_ELEMENTS {
        Err(SyncError::TooFewElements)
    } else if is_plus {
        Ok(1)
    } else {
        Ok(2)
    }
}

/// Position of the exit list to use in a `sync` array of `n` elements.
pub fn exit_list_index(n: usize, is_plus: bool) -> (r: Result<usize, SyncError>)
    ensures
        match r {
            Ok(i) => exit_list_position(n as nat, is_plus) == Ok::<nat, SyncError>(i as nat),
            Err(e) => exit_list_position(n as nat, is_plus) == Err::<nat, SyncError>(e),
        },
{
    if n < SYNC_ELEMENTS {
        Err(SyncError::TooFewElements)
    } else if is_plus {
        Ok(1)
    } else {
        Ok(2)
    }
}

/// The hostnames of a list of exit descriptions, in order.
fn exit_hostnames(list: &Vec<Json>) -> (r: Result<Vec<String>, SyncError>)
    ensures
        match r {
            Ok(h) => exit_hosts(list@) == Some(host_texts(h@)),
            Err(e) => exit_hosts(list@) is None && e == SyncError::BadExitList,
        },
{
    let mut hosts: Vec<String> = Vec::new();
    let mut i: usize = 0;
    while i < list.len()
        invariant
            i <= list@.len(),
            exit_hosts(list@.take(i as int)) == Some(host_texts(hosts@)),
        decreases list@.len() - i,
    {
        assert(list@.take(i + 1).drop_last() =~= list@.take(i as int));
        match host_of(&list[i]) {
            Some(h) => {
                let ghost before = hosts@;
                let ghost hv = h@;
                hosts.push(h);
                assert(host_texts(hosts@) =~= host_texts(before).push(hv));
            },
            None => {
                proof {
                    lemma_hosts_none_extends(list@, i + 1);
                }
                return Err(SyncError::BadExitList);
            },
        }
        i = i + 1;
    }
    assert(list@.take(i as int) =~= list@);
    Ok(hosts)
}

/// Reads a parsed `sync` output: a JSON array whose first element describes
/// the user, whose second element lists the exits for subscribers and whose
/// third lists the exits for everybody else.
pub fn interpret_sync_json(j: &Json) -> (r: Result<SyncInfo, SyncError>)
    ensures
        match r {
            Ok(info) => sync_outcome(Some(*j)) == Ok::<(bool, Seq<Seq<char>>), SyncError>(
                (info.is_plus, host_texts(info.exits@)),
            ),
            Err(e) => sync_outcome(Some(*j)) == Err::<(bool, Seq<Seq<char>>), SyncError>(e),
        },
{
    let items = match j {
        Json::Array(items) => items,
        _ => return Err(SyncError::BadJson),
    };
    if items.len() < SYNC_ELEMENTS {
        return Err(SyncError::TooFewElements);
    }
    let user = &items[0];
    match user {
        Json::Object(_) => {},
        _ => return Err(SyncError::BadUserInfo),
    }
    let is_plus = is_subscribed(user);
    let index = match exit_list_index(items.len(), is_plus) {
        Ok(i) => i,
        Err(e) => return Err(e),
    };
    let list = match &items[index] {
        Json::Array(l) => l,
        _ => return Err(SyncError::BadExitList),
    };
    let exits = match exit_hostnames(list) {
        Ok(h) => h,
        Err(e) => return Err(e),
    };
    Ok(SyncInfo { is_plus, exits })
}

/// Reads the client's `sync` output as `interpret_sync_json` does; output that
/// is not JSON is `BadJson`.
pub fn interpret_sync(stdout: &[u8]) -> (r: Result<SyncInfo, SyncError>)
    ensures
        match r {
            Ok(info) => sync_outcome(parsed_json(stdout@)) == Ok::<
                (bool, Seq<Seq<char>>),
                SyncError,
            >((info.is_plus, host_texts(info.exits@))),
            Err(e) => sync_outcome(parsed_json(stdout@)) == Err::<(bool, Seq<Seq<char>>), SyncError>(
                e,
            ),
        },
{
    match parse_json(stdout) {
        Some(j) => interpret_sync_json(&j),
        None => Err(SyncError::BadJson),
    }
}

/// Picks one exit at random among `exits`; an empty list has none to give.
pub fn choose_exit(exits: &Vec<String>) -> (r: Result<String, SyncError>)
    ensures
        r is Ok <==> exits@.len() > 0,
        r matches Err(e) ==> e == SyncError::NoExits,
        r matches Ok(h) ==> exists|i: int| 0 <= i < exits@.len() && h@ == exits@[i]@,
{
    if exits.len() == 0 {
        return Err(SyncError::NoExits);
    }
    let i = random_index(exits.len());
    Ok(exits[i].clone())
}

} // verus!
