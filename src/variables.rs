use vstd::prelude::*;
use crate::json::{new_object, object_entries, object_insert, parse_object, parsed_object, JsonObject};

verus! {

/// The variables file did not hold a JSON object.
pub struct MalformedVariables {
    pub error: serde_json::Error,
}

/// The view of a list of `(name, value)` overrides.
pub open spec fn pairs_view(v: Seq<(String, serde_json::Value)>) -> Seq<(Seq<char>, serde_json::Value)> {
    v.map_values(|p: (String, serde_json::Value)| (p.0@, p.1))
}

/// The overrides as a map: a later pair wins over an earlier one with the same name.
pub open spec fn overrides_map(o: Seq<(Seq<char>, serde_json::Value)>) -> Map<Seq<char>, serde_json::Value>
    decreases o.len(),
{
    if o.len() == 0 {
        Map::empty()
    } else {
        overrides_map(o.drop_last()).insert(o.last().0, o.last().1)
    }
}

/// The variables after the overrides: an override wins over the base value.
pub open spec fn merged(
    base: Map<Seq<char>, serde_json::Value>,
    o: Seq<(Seq<char>, serde_json::Value)>,
) -> Map<Seq<char>, serde_json::Value> {
    base.union_prefer_right(overrides_map(o))
}

/// Adds each override to the variables in order, replacing a value of the same name.
pub fn apply_overrides(variables: &mut JsonObject, overrides: Vec<(String, serde_json::Value)>)
    ensures
        object_entries(*final(variables)) == merged(object_entries(*old(variables)), pairs_view(overrides@)),
{
    let ghost base = object_entries(*variables);
    let ghost all = pairs_view(overrides@);
    let mut rest = overrides;
    let ghost mut i: int = 0;
    while rest.len() > 0
        invariant
            0 <= i,
            i + rest@.len() == all.len(),
            pairs_view(rest@) == all.skip(i),
            object_entries(*variables) == merged(base, all.take(i)),
        decreases rest@.len(),
    {
        let ghost before = object_entries(*variables);
        let ghost rest_before = rest@;
        let (k, v) = rest.remove(0);
        assert(all[i] == (k@, v)) by {
            assert(pairs_view(rest_before)[0] == all.skip(i)[0]);
        }
        assert forall|j: int| 0 <= j < rest@.len() implies pairs_view(rest@)[j] == all.skip(i + 1)[j] by {
            assert(rest@[j] == rest_before[j + 1]);
            assert(pairs_view(rest_before)[j + 1] == all.skip(i)[j + 1]);
        }
        assert(pairs_view(rest@) =~= all.skip(i + 1));
        assert(all.take(i + 1).drop_last() =~= all.take(i));
        object_insert(variables, k, v);
        assert(object_entries(*variables) =~= merged(base, all.take(i + 1)));
        proof {
            i = i + 1;
        }
    }
    assert(all.take(i) =~= all);
}

/// The variables of an operation: those of a JSON object text if one is given,
/// or none, with the listed overrides applied on top.
pub fn load_variables(
    variables_json: Option<&str>,
    variables_list: Vec<(String, serde_json::Value)>,
) -> (r: Result<JsonObject, MalformedVariables>)
    ensures
        variables_json is None ==> r is Ok && object_entries(r->Ok_0) == merged(
            Map::empty(),
            pairs_view(variables_list@),
        ),
        variables_json is Some ==> (r is Ok <==> parsed_object(variables_json->Some_0@) is Some),
        variables_json is Some && r is Ok ==> object_entries(r->Ok_0) == merged(
            parsed_object(variables_json->Some_0@)->Some_0,
            pairs_view(variables_list@),
        ),
{
    let mut variables = match variables_json {
        Some(text) => match parse_object(text) {
            Ok(m) => m,
            Err(error) => {
                return Err(MalformedVariables { error });
            },
        },
        None => new_object(),
    };
    assert(variables_json is None ==> object_entries(variables) =~= Map::empty());
    apply_overrides(&mut variables, variables_list);
    Ok(variables)
}

/// Applying the same overrides a second time changes nothing.
pub proof fn lemma_overrides_idempotent(
    base: Map<Seq<char>, serde_json::Value>,
    o: Seq<(Seq<char>, serde_json::Value)>,
)
    ensures
        merged(merged(base, o), o) == merged(base, o),
{
    assert(merged(merged(base, o), o) =~= merged(base, o));
}

} // verus!
