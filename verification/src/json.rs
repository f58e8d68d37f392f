use vstd::prelude::*;

verus! {

/// A JSON value as the extractors read and write it.
pub enum JsonValue {
    Null,
    Bool(bool),
    Int(i64),
    /// A number `mantissa * 10^exponent` that JSON writes with a fraction or an exponent.
    Decimal(i64, i32),
    Str(String),
    Array(Vec<JsonValue>),
    Object(Vec<(String, JsonValue)>),
}

/// The mathematical value of a JSON document.
#[verifier::ext_equal]
pub enum Json {
    Null,
    Bool(bool),
    Int(int),
    Decimal(int, int),
    Str(Seq<char>),
    Array(Seq<Json>),
    Object(Seq<(Seq<char>, Json)>),
}

pub open spec fn json_view(v: JsonValue) -> Json
    decreases v,
{
    match v {
        JsonValue::Null => Json::Null,
        JsonValue::Bool(b) => Json::Bool(b),
        JsonValue::Int(i) => Json::Int(i as int),
        JsonValue::Decimal(m, e) => Json::Decimal(m as int, e as int),
        JsonValue::Str(s) => Json::Str(s@),
        JsonValue::Array(items) => Json::Array(
            Seq::new(items@.len(), |i: int| if 0 <= i < items@.len() { json_view(items@[i]) } else { Json::Null }),
        ),
        JsonValue::Object(fields) => Json::Object(
            Seq::new(fields@.len(), |i: int| if 0 <= i < fields@.len() { (fields@[i].0@, json_view(fields@[i].1)) } else { (Seq::empty(), Json::Null) }),
        ),
    }
}

impl View for JsonValue {
    type V = Json;

    open spec fn view(&self) -> Json {
        json_view(*self)
    }
}

/// The views of an object's members.
pub open spec fn fields_view(f: Seq<(String, JsonValue)>) -> Seq<(Seq<char>, Json)> {
    Seq::new(f.len(), |i: int| (f[i].0@, json_view(f[i].1)))
}

/// The views of an array's items.
pub open spec fn items_view(a: Seq<JsonValue>) -> Seq<Json> {
    Seq::new(a.len(), |i: int| json_view(a[i]))
}

/// An object's view is the view of its members.
pub proof fn lemma_object_view(v: JsonValue)
    requires
        v is Object,
    ensures
        json_view(v) == Json::Object(fields_view(v->Object_0@)),
{
    assert(json_view(v)->Object_0 =~= fields_view(v->Object_0@));
}

/// An array's view is the view of its items.
pub proof fn lemma_array_view(v: JsonValue)
    requires
        v is Array,
    ensures
        json_view(v) == Json::Array(items_view(v->Array_0@)),
{
    assert(json_view(v)->Array_0 =~= items_view(v->Array_0@));
}

/// An object under construction, with no members yet.
pub fn obj_new() -> (r: Vec<(String, JsonValue)>)
    ensures
        fields_view(r@) == Seq::<(Seq<char>, Json)>::empty(),
{
    let r: Vec<(String, JsonValue)> = Vec::new();
    assert(fields_view(r@) =~= Seq::<(Seq<char>, Json)>::empty());
    r
}

/// An array under construction, with no items yet.
pub fn arr_new() -> (r: Vec<JsonValue>)
    ensures
        items_view(r@) == Seq::<Json>::empty(),
{
    let r: Vec<JsonValue> = Vec::new();
    assert(items_view(r@) =~= Seq::<Json>::empty());
    r
}

/// Adds a member to an object under construction.
pub fn obj_add(fields: &mut Vec<(String, JsonValue)>, key: &str, value: JsonValue)
    ensures
        fields_view(final(fields)@) == fields_view(old(fields)@).push((key@, value@)),
{
    fields.push((crate::text::owned(key), value));
    assert(fields_view(fields@) =~= fields_view(old(fields)@).push((key@, value@)));
}

/// The view of an optional JSON value.
pub open spec fn json_opt_view(v: Option<JsonValue>) -> Option<Json> {
    match v {
        Some(x) => Some(x@),
        None => None,
    }
}

/// `fields` with the member `key` added when there is a value.
pub open spec fn push_opt(fields: Seq<(Seq<char>, Json)>, key: Seq<char>, value: Option<Json>) -> Seq<(Seq<char>, Json)> {
    match value {
        Some(v) => fields.push((key, v)),
        None => fields,
    }
}

/// Adds a member to an object under construction when there is a value.
pub fn obj_add_opt(fields: &mut Vec<(String, JsonValue)>, key: &str, value: Option<JsonValue>)
    ensures
        fields_view(final(fields)@) == push_opt(fields_view(old(fields)@), key@, json_opt_view(value)),
{
    match value {
        Some(v) => obj_add(fields, key, v),
        None => {},
    }
}

/// The object with the given members.
pub fn obj_done(fields: Vec<(String, JsonValue)>) -> (r: JsonValue)
    ensures
        r@ == Json::Object(fields_view(fields@)),
{
    let r = JsonValue::Object(fields);
    assert(json_view(r)->Object_0 =~= fields_view(fields@));
    r
}

/// Adds an item to an array under construction.
pub fn arr_add(items: &mut Vec<JsonValue>, value: JsonValue)
    ensures
        items_view(final(items)@) == items_view(old(items)@).push(value@),
{
    items.push(value);
    assert(items_view(items@) =~= items_view(old(items)@).push(value@));
}

/// The array with the given items.
pub fn arr_done(items: Vec<JsonValue>) -> (r: JsonValue)
    ensures
        r@ == Json::Array(items_view(items@)),
{
    let r = JsonValue::Array(items);
    assert(json_view(r)->Array_0 =~= items_view(items@));
    r
}

/// Structural copy of a JSON value.
pub fn json_clone(v: &JsonValue) -> (r: JsonValue)
    ensures
        r@ == v@,
    decreases v,
{
    match v {
        JsonValue::Null => {
            assert(json_view(JsonValue::Null) == Json::Null);
            JsonValue::Null
        },
        JsonValue::Bool(b) => { let r = JsonValue::Bool(*b); assert(r@ == v@); r },
        JsonValue::Int(i) => { let r = JsonValue::Int(*i); assert(r@ == v@); r },
        JsonValue::Decimal(m, e) => { let r = JsonValue::Decimal(*m, *e); assert(r@ == v@); r },
        JsonValue::Str(s) => { let r = JsonValue::Str(s.clone()); assert(r@ == v@); r },
        JsonValue::Array(items) => {
            let mut out: Vec<JsonValue> = Vec::new();
            let mut i: usize = 0;
            while i < items.len()
                invariant
                    *v == JsonValue::Array(*items),
                    i <= items.len(),
                    out@.len() == i,
                    forall|j: int| 0 <= j < i ==> json_view(#[trigger] out@[j]) == json_view(items@[j]),
                decreases items.len() - i,
            {
                proof {
                    vstd::std_specs::vec::axiom_vec_index_decreases(*items, i as int);
                    assert(decreases_to!(*v => (*v)->Array_0));
                    assert(decreases_to!(*v => items[i as int]));
                }
                let c = json_clone(&items[i]);
                out.push(c);
                i = i + 1;
            }
            assert(Seq::new(out@.len(), |i: int| if 0 <= i < out@.len() { json_view(out@[i]) } else { Json::Null })
                =~= Seq::new(items@.len(), |i: int| if 0 <= i < items@.len() { json_view(items@[i]) } else { Json::Null }));
            let r = JsonValue::Array(out);
            assert(*v == JsonValue::Array(*items));
            assert(json_view(r) is Array);
            assert(json_view(r)->Array_0 =~= json_view(*v)->Array_0);
            assert(r@ =~= v@);
            r
        },
        JsonValue::Object(fields) => {
            let mut out: Vec<(String, JsonValue)> = Vec::new();
            let mut i: usize = 0;
            while i < fields.len()
                invariant
                    *v == JsonValue::Object(*fields),
                    i <= fields.len(),
                    out@.len() == i,
                    forall|j: int| 0 <= j < i ==> (#[trigger] out@[j]).0@ == fields@[j].0@ && json_view(out@[j].1) == json_view(fields@[j].1),
                decreases fields.len() - i,
            {
                let k = fields[i].0.clone();
                proof {
                    vstd::std_specs::vec::axiom_vec_index_decreases(*fields, i as int);
                    assert(decreases_to!(*v => (*v)->Object_0));
                    assert(decreases_to!(fields[i as int] => fields[i as int].1));
                    assert(decreases_to!(*v => fields[i as int].1));
                }
                let c = json_clone(&fields[i].1);
                out.push((k, c));
                i = i + 1;
            }
            assert(Seq::new(out@.len(), |i: int| if 0 <= i < out@.len() { (out@[i].0@, json_view(out@[i].1)) } else { (Seq::empty(), Json::Null) })
                =~= Seq::new(fields@.len(), |i: int| if 0 <= i < fields@.len() { (fields@[i].0@, json_view(fields@[i].1)) } else { (Seq::empty(), Json::Null) }));
            let r = JsonValue::Object(out);
            assert(*v == JsonValue::Object(*fields));
            assert(json_view(r) is Object);
            assert(json_view(r)->Object_0 =~= json_view(*v)->Object_0);
            assert(r@ =~= v@);
            r
        },
    }
}


/// The value stored under `key` in an object (the first entry with that key), if any.
pub open spec fn json_lookup(v: Json, key: Seq<char>) -> Option<Json> {
    match v {
        Json::Object(fields) => fields_lookup(fields, key),
        _ => None,
    }
}

/// The first entry of `fields` whose key is `key`.
pub open spec fn fields_lookup(fields: Seq<(Seq<char>, Json)>, key: Seq<char>) -> Option<Json>
    decreases fields.len(),
{
    if fields.len() == 0 {
        None
    } else if fields[0].0 == key {
        Some(fields[0].1)
    } else {
        fields_lookup(fields.drop_first(), key)
    }
}

/// The string stored under `key`, if that member exists and is a string.
pub open spec fn json_str_at(v: Json, key: Seq<char>) -> Option<Seq<char>> {
    match json_lookup(v, key) {
        Some(Json::Str(s)) => Some(s),
        _ => None,
    }
}

/// The integer stored under `key`, if that member exists and is an integer.
pub open spec fn json_int_at(v: Json, key: Seq<char>) -> Option<int> {
    match json_lookup(v, key) {
        Some(Json::Int(i)) => Some(i),
        _ => None,
    }
}

/// The boolean stored under `key`, if that member exists and is a boolean.
pub open spec fn json_bool_at(v: Json, key: Seq<char>) -> Option<bool> {
    match json_lookup(v, key) {
        Some(Json::Bool(b)) => Some(b),
        _ => None,
    }
}

pub proof fn lemma_fields_lookup_step(fields: Seq<(Seq<char>, Json)>, key: Seq<char>, i: int)
    requires
        0 <= i < fields.len(),
        forall|j: int| 0 <= j < i ==> fields[j].0 != key,
    ensures
        fields_lookup(fields, key) == fields_lookup(fields.subrange(i, fields.len() as int), key),
    decreases i,
{
    if i > 0 {
        lemma_fields_lookup_step(fields.drop_first(), key, i - 1);
        assert(fields.drop_first().subrange(i - 1, fields.drop_first().len() as int)
            =~= fields.subrange(i, fields.len() as int));
    } else {
        assert(fields.subrange(0, fields.len() as int) =~= fields);
    }
}

pub proof fn lemma_fields_lookup_none(fields: Seq<(Seq<char>, Json)>, key: Seq<char>)
    requires
        forall|j: int| 0 <= j < fields.len() ==> fields[j].0 != key,
    ensures
        fields_lookup(fields, key) is None,
    decreases fields.len(),
{
    if fields.len() > 0 {
        lemma_fields_lookup_none(fields.drop_first(), key);
    }
}

/// The member of an object stored under `key`.
pub fn json_get<'a>(v: &'a JsonValue, key: &str) -> (r: Option<&'a JsonValue>)
    ensures
        match r {
            Some(x) => json_lookup(v@, key@) == Some(x@),
            None => json_lookup(v@, key@) is None,
        },
{
    match v {
        JsonValue::Object(fields) => {
            let ghost fv = json_view(*v)->Object_0;
            let mut i: usize = 0;
            while i < fields.len()
                invariant
                    *v == JsonValue::Object(*fields),
                    fv == json_view(*v)->Object_0,
                    fv.len() == fields@.len(),
                    i <= fields.len(),
                    forall|j: int| 0 <= j < fields@.len() ==> (#[trigger] fv[j]) == (fields@[j].0@, json_view(fields@[j].1)),
                    forall|j: int| 0 <= j < i ==> (#[trigger] fv[j]).0 != key@,
                decreases fields.len() - i,
            {
                if str_equal(fields[i].0.as_str(), key) {
                    proof {
                        lemma_fields_lookup_step(fv, key@, i as int);
                    }
                    return Some(&fields[i].1);
                }
                i = i + 1;
            }
            proof {
                lemma_fields_lookup_none(fv, key@);
            }
            None
        },
        _ => None,
    }
}

/// String equality by characters.
pub fn str_equal(a: &str, b: &str) -> (r: bool)
    ensures
        r == (a@ == b@),
{
    let n = a.unicode_len();
    if n != b.unicode_len() {
        return false;
    }
    let mut i: usize = 0;
    while i < n
        invariant
            n == a@.len(),
            n == b@.len(),
            i <= n,
            forall|j: int| 0 <= j < i ==> a@[j] == b@[j],
        decreases n - i,
    {
        if a.get_char(i) != b.get_char(i) {
            return false;
        }
        i = i + 1;
    }
    assert(a@ =~= b@);
    true
}

/// The string member `key` of an object (json_string of the extractors).
pub fn json_string<'a>(v: &'a JsonValue, key: &str) -> (r: Option<&'a str>)
    ensures
        match r {
            Some(s) => json_str_at(v@, key@) == Some(s@),
            None => json_str_at(v@, key@) is None,
        },
{
    match json_get(v, key) {
        Some(JsonValue::Str(s)) => Some(s.as_str()),
        _ => None,
    }
}

/// The integer member `key` of an object.
pub fn json_i64(v: &JsonValue, key: &str) -> (r: Option<i64>)
    ensures
        match r {
            Some(i) => json_int_at(v@, key@) == Some(i as int),
            None => json_int_at(v@, key@) is None,
        },
{
    match json_get(v, key) {
        Some(JsonValue::Int(i)) => Some(*i),
        _ => None,
    }
}

/// The boolean member `key` of an object.
pub fn json_bool(v: &JsonValue, key: &str) -> (r: Option<bool>)
    ensures
        r == json_bool_at(v@, key@),
{
    match json_get(v, key) {
        Some(JsonValue::Bool(b)) => Some(*b),
        _ => None,
    }
}

/// The position of the first member keyed `key`, from `from` on.
pub open spec fn member_pos(fields: Seq<(Seq<char>, Json)>, key: Seq<char>, from: int) -> Option<int>
    decreases fields.len() - from,
{
    if from < 0 || from >= fields.len() {
        None
    } else if fields[from].0 == key {
        Some(from)
    } else {
        member_pos(fields, key, from + 1)
    }
}

/// `fields` with member `key` set to `value`: in its place when it is there, else added last
/// (`serde_json::Map::insert`).
pub open spec fn fields_put(fields: Seq<(Seq<char>, Json)>, key: Seq<char>, value: Json) -> Seq<(Seq<char>, Json)> {
    match member_pos(fields, key, 0) {
        Some(i) => fields.update(i, (key, value)),
        None => fields.push((key, value)),
    }
}

/// Sets member `key` of an object under construction to `value`.
pub fn obj_put(fields: &mut Vec<(String, JsonValue)>, key: &str, value: JsonValue)
    ensures
        fields_view(final(fields)@) == fields_put(fields_view(old(fields)@), key@, value@),
{
    let ghost g = fields_view(fields@);
    let mut i: usize = 0;
    while i < fields.len()
        invariant
            i <= fields@.len(),
            g == fields_view(fields@),
            fields@ == old(fields)@,
            member_pos(g, key@, 0) == member_pos(g, key@, i as int),
        decreases fields@.len() - i,
    {
        assert(g[i as int].0 == fields@[i as int].0@);
        if str_equal(fields[i].0.as_str(), key) {
            let ghost vv = value@;
            fields.set(i, (crate::text::owned(key), value));
            assert(fields_view(fields@) =~= g.update(i as int, (key@, vv)));
            assert(member_pos(g, key@, i as int) == Some(i as int));
            return;
        }
        i = i + 1;
    }
    let ghost vv = value@;
    fields.push((crate::text::owned(key), value));
    assert(fields_view(fields@) =~= g.push((key@, vv)));
}

/// The position of the first group keyed `lang`, from `from` on.
pub open spec fn group_pos(groups: Seq<(Seq<char>, Seq<Json>)>, lang: Seq<char>, from: int) -> Option<int>
    decreases groups.len() - from,
{
    if from < 0 || from >= groups.len() {
        None
    } else if groups[from].0 == lang {
        Some(from)
    } else {
        group_pos(groups, lang, from + 1)
    }
}

/// `groups` with `item` added to the group keyed `lang`, which is made, last, when there is none.
pub open spec fn group_add(groups: Seq<(Seq<char>, Seq<Json>)>, lang: Seq<char>, item: Json) -> Seq<(Seq<char>, Seq<Json>)> {
    match group_pos(groups, lang, 0) {
        Some(i) => groups.update(i, (lang, groups[i].1.push(item))),
        None => groups.push((lang, seq![item])),
    }
}

/// Groups as the members of a JSON object, each an array.
pub open spec fn groups_json(groups: Seq<(Seq<char>, Seq<Json>)>) -> Seq<(Seq<char>, Json)> {
    Seq::new(groups.len(), |i: int| (groups[i].0, Json::Array(groups[i].1)))
}

/// The views of groups under construction.
pub open spec fn lang_groups_view(v: Seq<(String, Vec<JsonValue>)>) -> Seq<(Seq<char>, Seq<Json>)> {
    Seq::new(v.len(), |i: int| (v[i].0@, items_view(v[i].1@)))
}

/// Adds `item` to the group keyed `lang`, made last when there is none.
pub fn add_to_group(groups: &mut Vec<(String, Vec<JsonValue>)>, lang: &str, item: JsonValue)
    ensures
        lang_groups_view(final(groups)@) == group_add(lang_groups_view(old(groups)@), lang@, item@),
{
    let ghost g = lang_groups_view(groups@);
    let mut i: usize = 0;
    while i < groups.len()
        invariant
            i <= groups@.len(),
            g == lang_groups_view(groups@),
            groups@ == old(groups)@,
            group_pos(g, lang@, 0) == group_pos(g, lang@, i as int),
        decreases groups@.len() - i,
    {
        assert(g[i as int].0 == groups@[i as int].0@);
        if str_equal(groups[i].0.as_str(), lang) {
            let ghost before = groups@;
            let (key, mut items) = groups.remove(i);
            let ghost old_items = items@;
            assert(before[i as int] == (key, items));
            items.push(item);
            assert(items_view(items@) =~= items_view(old_items).push(item@));
            groups.insert(i, (key, items));
            assert(groups@ =~= before.update(i as int, (key, items)));
            assert(lang_groups_view(groups@) =~= g.update(i as int, (lang@, g[i as int].1.push(item@))));
            assert(group_pos(g, lang@, i as int) == Some(i as int));
            return;
        }
        i = i + 1;
    }
    let one = vec![item];
    assert(items_view(one@) =~= seq![item@]);
    groups.push((crate::text::owned(lang), one));
    assert(lang_groups_view(groups@) =~= g.push((lang@, seq![item@])));
}

/// The JSON object of groups, each an array.
pub fn groups_object(groups: Vec<(String, Vec<JsonValue>)>) -> (r: JsonValue)
    ensures
        r@ == Json::Object(groups_json(lang_groups_view(groups@))),
{
    let ghost total = groups_json(lang_groups_view(groups@));
    let mut rest = groups;
    let mut out = obj_new();
    while rest.len() > 0
        invariant
            fields_view(out@) + groups_json(lang_groups_view(rest@)) == total,
        decreases rest@.len(),
    {
        let ghost before = rest@;
        let (key, items) = rest.remove(0);
        assert(groups_json(lang_groups_view(before)) =~= seq![(key@, Json::Array(items_view(items@)))] + groups_json(lang_groups_view(rest@)));
        obj_add(&mut out, key.as_str(), arr_done(items));
        assert(fields_view(out@) + groups_json(lang_groups_view(rest@)) =~= total);
    }
    assert(groups_json(lang_groups_view(rest@)) =~= Seq::<(Seq<char>, Json)>::empty());
    assert(fields_view(out@) =~= total);
    obj_done(out)
}

} // verus!
