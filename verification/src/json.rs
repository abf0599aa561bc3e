//! The JSON data model the harness works on.
//!
//! Suite files and test request payloads are JSON documents. The harness
//! holds them in [`JsonValue`], whose mathematical counterpart is
//! [`JsonView`]. Numbers keep their literal text, so the model carries any
//! JSON number faithfully without rounding.

use crate::error::{Error, ErrorKind};
use vstd::prelude::*;

verus! {

broadcast use vstd::std_specs::vec::group_vec_axioms, vstd::seq::group_seq_axioms;

/// The mathematical model of a JSON document.
pub enum JsonView {
    Null,
    Bool(bool),
    /// The literal text of the number, e.g. `12.5e3`.
    Num(Seq<char>),
    Str(Seq<char>),
    Arr(Seq<JsonView>),
    /// Members in document order; duplicate keys are kept as written.
    Obj(Seq<(Seq<char>, JsonView)>),
}

/// A JSON document: the unit of suite files, request payloads and replies.
#[derive(Debug)]
pub enum JsonValue {
    Null,
    Bool(bool),
    /// The literal text of the number, e.g. `12.5e3`.
    Num(String),
    Str(String),
    Arr(Vec<JsonValue>),
    /// Members in document order; duplicate keys are kept as written.
    Obj(Vec<(String, JsonValue)>),
}

/// The model of one JSON value.
pub open spec fn json_view(v: JsonValue) -> JsonView
    decreases v,
{
    match v {
        JsonValue::Null => JsonView::Null,
        JsonValue::Bool(b) => JsonView::Bool(b),
        JsonValue::Num(s) => JsonView::Num(s@),
        JsonValue::Str(s) => JsonView::Str(s@),
        JsonValue::Arr(xs) => JsonView::Arr(json_views(xs@)),
        JsonValue::Obj(ps) => JsonView::Obj(member_views(ps@)),
    }
}

/// The models of a sequence of JSON values, element by element.
pub open spec fn json_views(s: Seq<JsonValue>) -> Seq<JsonView>
    decreases s,
{
    if s.len() == 0 {
        Seq::empty()
    } else {
        seq![json_view(s[0])] + json_views(s.drop_first())
    }
}

/// The models of a sequence of object members, member by member.
pub open spec fn member_views(s: Seq<(String, JsonValue)>) -> Seq<(Seq<char>, JsonView)>
    decreases s,
{
    if s.len() == 0 {
        Seq::empty()
    } else {
        seq![(s[0].0@, json_view(s[0].1))] + member_views(s.drop_first())
    }
}

impl View for JsonValue {
    type V = JsonView;

    open spec fn view(&self) -> JsonView {
        json_view(*self)
    }
}

/// `json_views` maps the model element by element.
pub proof fn lemma_json_views(s: Seq<JsonValue>)
    ensures
        json_views(s).len() == s.len(),
        forall|i: int| 0 <= i < s.len() ==> json_views(s)[i] == json_view(s[i]),
    decreases s.len(),
{
    if s.len() > 0 {
        lemma_json_views(s.drop_first());
    }
}

/// `member_views` maps the model member by member.
pub proof fn lemma_member_views(s: Seq<(String, JsonValue)>)
    ensures
        member_views(s).len() == s.len(),
        forall|i: int| 0 <= i < s.len() ==> member_views(s)[i] == (s[i].0@, json_view(s[i].1)),
    decreases s.len(),
{
    if s.len() > 0 {
        lemma_member_views(s.drop_first());
    }
}

/// Whether an object holds a member under the given key.
pub open spec fn obj_has_key(ms: Seq<(Seq<char>, JsonView)>, k: Seq<char>) -> bool {
    exists|i: int| 0 <= i < ms.len() && ms[i].0 == k
}

/// The index of the first member under the given key; meaningful only when
/// `obj_has_key` holds.
pub open spec fn first_key_index(ms: Seq<(Seq<char>, JsonView)>, k: Seq<char>) -> int
    decreases ms.len(),
{
    if ms.len() == 0 {
        0
    } else if ms[0].0 == k {
        0
    } else {
        1 + first_key_index(ms.drop_first(), k)
    }
}

/// When the key occurs, `first_key_index` names its first occurrence.
pub proof fn lemma_first_key_index(ms: Seq<(Seq<char>, JsonView)>, k: Seq<char>)
    requires
        obj_has_key(ms, k),
    ensures
        0 <= first_key_index(ms, k) < ms.len(),
        ms[first_key_index(ms, k)].0 == k,
        forall|j: int| 0 <= j < first_key_index(ms, k) ==> ms[j].0 != k,
    decreases ms.len(),
{
    if ms.len() > 0 && ms[0].0 != k {
        let i = choose|i: int| 0 <= i < ms.len() && ms[i].0 == k;
        assert(ms.drop_first()[i - 1].0 == k);
        lemma_first_key_index(ms.drop_first(), k);
        assert forall|j: int| 0 <= j < first_key_index(ms, k) implies ms[j].0 != k by {
            if j > 0 {
                assert(ms.drop_first()[j - 1].0 == ms[j].0);
            }
        }
    }
}

/// `first_key_index` is the unique index that is a first occurrence.
pub proof fn lemma_first_key_index_unique(ms: Seq<(Seq<char>, JsonView)>, k: Seq<char>, i: int)
    requires
        0 <= i < ms.len(),
        ms[i].0 == k,
        forall|j: int| 0 <= j < i ==> ms[j].0 != k,
    ensures
        first_key_index(ms, k) == i,
    decreases ms.len(),
{
    if ms[0].0 != k {
        assert(forall|j: int| 0 <= j < i - 1 ==> ms.drop_first()[j].0 == ms[j + 1].0);
        lemma_first_key_index_unique(ms.drop_first(), k, i - 1);
    }
}

/// Whether a request document accepts token injection: it is an object, has
/// a `header` member, and that member's first occurrence is itself an object.
pub open spec fn inject_token_ready(v: JsonView) -> bool {
    &&& v is Obj
    &&& obj_has_key(v->Obj_0, "header"@)
    &&& v->Obj_0[first_key_index(v->Obj_0, "header"@)].1 is Obj
}

/// The header object after injection: unchanged when a `token` member is
/// already present, else extended with `token` bound to the given string.
pub open spec fn with_token(h: Seq<(Seq<char>, JsonView)>, token: Seq<char>) -> Seq<
    (Seq<char>, JsonView),
> {
    if obj_has_key(h, "token"@) {
        h
    } else {
        h.push(("token"@, JsonView::Str(token)))
    }
}

/// The request document after token injection into its first `header` member.
pub open spec fn token_injected(v: JsonView, token: Seq<char>) -> JsonView
    recommends
        inject_token_ready(v),
{
    let ms = v->Obj_0;
    let i = first_key_index(ms, "header"@);
    JsonView::Obj(ms.update(i, (ms[i].0, JsonView::Obj(with_token(ms[i].1->Obj_0, token)))))
}

/// Token injection is idempotent: injecting the same token a second time
/// leaves the request identical.
pub proof fn lemma_token_injection_idempotent(v: JsonView, token: Seq<char>)
    requires
        inject_token_ready(v),
    ensures
        inject_token_ready(token_injected(v, token)),
        token_injected(token_injected(v, token), token) == token_injected(v, token),
{
    let ms = v->Obj_0;
    lemma_first_key_index(ms, "header"@);
    let i = first_key_index(ms, "header"@);
    let h = ms[i].1->Obj_0;
    let h2 = with_token(h, token);
    let ms2 = ms.update(i, (ms[i].0, JsonView::Obj(h2)));
    assert(obj_has_key(ms2, "header"@)) by {
        assert(ms2[i].0 == "header"@);
    }
    lemma_first_key_index_unique(ms2, "header"@, i);
    assert(obj_has_key(h2, "token"@)) by {
        if obj_has_key(h, "token"@) {
            let j = choose|j: int| 0 <= j < h.len() && h[j].0 == "token"@;
            assert(h2[j].0 == "token"@);
        } else {
            assert(h2[h.len() as int].0 == "token"@);
        }
    }
    assert(token_injected(token_injected(v, token), token)->Obj_0 =~= ms2);
}

impl Clone for JsonValue {
    /// A deep copy with the same model.
    fn clone(&self) -> (res: Self)
        ensures
            res@ == self@,
        decreases *self,
    {
        match self {
            JsonValue::Null => JsonValue::Null,
            JsonValue::Bool(b) => JsonValue::Bool(*b),
            JsonValue::Num(s) => JsonValue::Num(s.clone()),
            JsonValue::Str(s) => JsonValue::Str(s.clone()),
            JsonValue::Arr(xs) => {
                let n = xs.len();
                let mut ys: Vec<JsonValue> = Vec::new();
                let mut i: usize = 0;
                while i < n
                    invariant
                        *self == JsonValue::Arr(*xs),
                        n == xs@.len(),
                        i <= n,
                        ys@.len() == i,
                        forall|j: int| 0 <= j < i ==> json_view(#[trigger] ys@[j]) == json_view(
                            xs@[j],
                        ),
                    decreases n - i,
                {
                    proof {
                        assert(decreases_to!(*self => (*self)->Arr_0));
                        assert((*self)->Arr_0 == *xs);
                        assert(decreases_to!(*xs => xs@));
                        assert(decreases_to!(xs@ => xs@[i as int]));
                        assert(decreases_to!(*self => xs@[i as int]));
                    }
                    ys.push(xs[i].clone());
                    i = i + 1;
                }
                proof {
                    lemma_json_views(xs@);
                    lemma_json_views(ys@);
                    assert(json_views(ys@) =~= json_views(xs@));
                }
                JsonValue::Arr(ys)
            }
            JsonValue::Obj(ps) => {
                let n = ps.len();
                let mut qs: Vec<(String, JsonValue)> = Vec::new();
                let mut i: usize = 0;
                while i < n
                    invariant
                        *self == JsonValue::Obj(*ps),
                        n == ps@.len(),
                        i <= n,
                        qs@.len() == i,
                        forall|j: int| 0 <= j < i ==> (#[trigger] qs@[j]).0@ == ps@[j].0@
                            && json_view(qs@[j].1) == json_view(ps@[j].1),
                    decreases n - i,
                {
                    proof {
                        assert(decreases_to!(*self => (*self)->Obj_0));
                        assert((*self)->Obj_0 == *ps);
                        assert(decreases_to!(*ps => ps@));
                        assert(decreases_to!(ps@ => ps@[i as int]));
                        assert(decreases_to!(ps@[i as int] => ps@[i as int].1));
                        assert(decreases_to!(*self => ps@[i as int].1));
                    }
                    let key = ps[i].0.clone();
                    let val = ps[i].1.clone();
                    qs.push((key, val));
                    i = i + 1;
                }
                proof {
                    lemma_member_views(ps@);
                    lemma_member_views(qs@);
                    assert(member_views(qs@) =~= member_views(ps@));
                }
                JsonValue::Obj(qs)
            }
        }
    }
}

/// A deep copy of an object's member list, with the same model.
pub fn clone_members(ps: &Vec<(String, JsonValue)>) -> (r: Vec<(String, JsonValue)>)
    ensures
        member_views(r@) == member_views(ps@),
{
    let n = ps.len();
    let mut qs: Vec<(String, JsonValue)> = Vec::new();
    let mut i: usize = 0;
    while i < n
        invariant
            n == ps@.len(),
            i <= n,
            qs@.len() == i,
            forall|j: int| 0 <= j < i ==> (#[trigger] qs@[j]).0@ == ps@[j].0@ && json_view(
                qs@[j].1,
            ) == json_view(ps@[j].1),
        decreases n - i,
    {
        let key = ps[i].0.clone();
        let val = ps[i].1.clone();
        qs.push((key, val));
        i = i + 1;
    }
    proof {
        lemma_member_views(ps@);
        lemma_member_views(qs@);
        assert(member_views(qs@) =~= member_views(ps@));
    }
    qs
}

/// Compares two string slices by content.
pub fn str_eq(a: &str, b: &str) -> (r: bool)
    ensures
        r == (a@ == b@),
{
    let x: String = a.to_owned();
    let y: String = b.to_owned();
    x == y
}

/// Finds the first member of an object under the given key.
pub fn find_key(ps: &Vec<(String, JsonValue)>, k: &str) -> (r: Option<usize>)
    ensures
        match r {
            Some(i) => {
                &&& i < ps.len()
                &&& ps@[i as int].0@ == k@
                &&& forall|j: int| 0 <= j < i ==> ps@[j].0@ != k@
            },
            None => forall|j: int| 0 <= j < ps@.len() ==> ps@[j].0@ != k@,
        },
{
    let mut i: usize = 0;
    while i < ps.len()
        invariant
            i <= ps.len(),
            forall|j: int| 0 <= j < i ==> ps@[j].0@ != k@,
        decreases ps.len() - i,
    {
        if str_eq(ps[i].0.as_str(), k) {
            return Some(i);
        }
        i = i + 1;
    }
    None
}

/// Injects the bearer token into the request's `header` object, leaving the
/// header alone when it already carries a `token` member. The request must
/// be an object with an object-valued `header` member; otherwise it is left
/// unchanged and an internal failure is reported.
pub fn inject_token(v: &mut JsonValue, token: &str) -> (r: Result<(), Error>)
    ensures
        r is Ok <==> inject_token_ready(old(v)@),
        r is Ok ==> final(v)@ == token_injected(old(v)@, token@),
        r is Err ==> final(v)@ == old(v)@,
        r is Err ==> r->Err_0.kind == ErrorKind::InternalFailure,
{
    match v {
        JsonValue::Obj(ps) => {
            proof {
                lemma_member_views(ps@);
            }
            match find_key(ps, "header") {
                Some(i) => {
                    let ghost ms = member_views(ps@);
                    proof {
                        assert(ms[i as int].0 == ps@[i as int].0@);
                        lemma_first_key_index_unique(ms, "header"@, i as int);
                    }
                    let (key, header) = ps.remove(i);
                    match header {
                        JsonValue::Obj(mut hs) => {
                            proof {
                                lemma_member_views(hs@);
                            }
                            let ghost hview = member_views(hs@);
                            match find_key(&hs, "token") {
                                Some(t) => {
                                    proof {
                                        assert(hview[t as int].0 == "token"@);
                                        assert(obj_has_key(hview, "token"@));
                                    }
                                }
                                None => {
                                    hs.push(("token".to_owned(), JsonValue::Str(token.to_owned())));
                                    proof {
                                        assert(!obj_has_key(hview, "token"@));
                                        assert(member_views(hs@) =~= hview.push(
                                            ("token"@, JsonView::Str(token@)),
                                        )) by {
                                            lemma_member_views(hs@);
                                        }
                                    }
                                }
                            }
                            ps.insert(i, (key, JsonValue::Obj(hs)));
                            proof {
                                lemma_member_views(ps@);
                                assert(member_views(ps@) =~= ms.update(
                                    i as int,
                                    (ms[i as int].0, JsonView::Obj(with_token(
                                        ms[i as int].1->Obj_0,
                                        token@,
                                    ))),
                                ));
                            }
                            Ok(())
                        }
                        other => {
                            ps.insert(i, (key, other));
                            proof {
                                lemma_member_views(ps@);
                                assert(member_views(ps@) =~= ms);
                            }
                            Err(
                                Error::new(
                                    ErrorKind::InternalFailure,
                                    "failed to get header as object".to_owned(),
                                ),
                            )
                        }
                    }
                }
                None => {
                    proof {
                        assert(!obj_has_key(member_views(ps@), "header"@));
                    }
                    Err(Error::new(ErrorKind::InternalFailure, "failed to get header".to_owned()))
                }
            }
        }
        _ => Err(Error::new(ErrorKind::InternalFailure, "failed to get header".to_owned())),
    }
}

} // verus!
