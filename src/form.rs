use vstd::prelude::*;
use crate::value::{Value, assoc, keys_unique, put_entry};
use crate::request::holds_texts;

verus! {

/// The name/value pairs that a form-urlencoded text holds, in order, decoded.
pub uninterp spec fn form_pairs_of(body: Seq<char>) -> Seq<(Seq<char>, Seq<char>)>;

pub open spec fn text_pairs(p: Seq<(String, String)>) -> Seq<(Seq<char>, Seq<char>)> {
    p.map_values(|x: (String, String)| (x.0@, x.1@))
}

/// Relies on `url::form_urlencoded::parse`: the pairs in order of occurrence,
/// none for an empty text.
#[verifier::external_body]
fn parse_form(body: &str) -> (r: Vec<(String, String)>)
    ensures
        text_pairs(r@) == form_pairs_of(body@),
        body@.len() == 0 ==> r@.len() == 0,
{
    url::form_urlencoded::parse(body.as_bytes()).into_owned().collect()
}

/// The mapping that the pairs stand for: a later pair overrides an earlier one
/// of the same name.
pub open spec fn pairs_map(p: Seq<(Seq<char>, Seq<char>)>) -> Map<Seq<char>, Seq<char>>
    decreases p.len(),
{
    if p.len() == 0 {
        Map::empty()
    } else {
        pairs_map(p.drop_last()).insert(p.last().0, p.last().1)
    }
}

/// The fields of a form-urlencoded request body, as a mapping of strings.
pub fn read_form_urlencoded(body: &str) -> (r: Value)
    ensures
        r matches Value::Mapping(e) && keys_unique(e@) && holds_texts(assoc(e@), pairs_map(form_pairs_of(body@))),
{
    let pairs = parse_form(body);
    let ghost tp = text_pairs(pairs@);
    let mut e: Vec<(String, Value)> = Vec::new();
    let n = pairs.len();
    let mut i: usize = 0;
    assert(assoc(e@) =~= Map::empty());
    assert(tp.subrange(0, 0) =~= Seq::<(Seq<char>, Seq<char>)>::empty());
    while i < n
        invariant
            n == pairs.len(),
            tp == text_pairs(pairs@),
            i <= n,
            keys_unique(e@),
            holds_texts(assoc(e@), pairs_map(tp.subrange(0, i as int))),
        decreases n - i,
    {
        let name = pairs[i].0.clone();
        let v = pairs[i].1.clone();
        put_entry(&mut e, name, Value::Str(v));
        assert(tp.subrange(0, i + 1).drop_last() =~= tp.subrange(0, i as int));
        assert(tp.subrange(0, i + 1).last() == tp[i as int]);
        assert(assoc(e@).dom() =~= pairs_map(tp.subrange(0, i + 1)).dom());
        i = i + 1;
    }
    assert(tp.subrange(0, n as int) =~= tp);
    Value::Mapping(e)
}

} // verus!
