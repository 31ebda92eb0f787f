use vstd::prelude::*;

verus! {

/// The names a list of strings holds, in order.
pub open spec fn names_of(list: Seq<String>) -> Seq<Seq<char>> {
    Seq::new(list.len(), |i: int| list[i]@)
}

/// The requested names that the directory lacks, each once, in the order in
/// which they were first requested.
pub open spec fn missing_names(requested: Seq<Seq<char>>, present: Seq<Seq<char>>) -> Seq<Seq<char>>
    decreases requested.len(),
{
    if requested.len() == 0 {
        Seq::empty()
    } else {
        let earlier = missing_names(requested.drop_last(), present);
        let name = requested.last();
        if present.contains(name) || earlier.contains(name) {
            earlier
        } else {
            earlier.push(name)
        }
    }
}

/// A name is missing exactly when it was requested and the directory lacks
/// it, and no name is listed twice.
pub proof fn lemma_missing_holds_each_once(requested: Seq<Seq<char>>, present: Seq<Seq<char>>)
    ensures
        forall|name: Seq<char>| #[trigger]
            missing_names(requested, present).contains(name) <==> requested.contains(name)
                && !present.contains(name),
        missing_names(requested, present).no_duplicates(),
    decreases requested.len(),
{
    let missing = missing_names(requested, present);
    if requested.len() > 0 {
        let front = requested.drop_last();
        let earlier = missing_names(front, present);
        let last = requested.last();
        lemma_missing_holds_each_once(front, present);
        assert forall|name: Seq<char>| #[trigger]
            missing.contains(name) <==> requested.contains(name) && !present.contains(name) by {
            if requested.contains(name) {
                let j = choose|j: int| 0 <= j < requested.len() && requested[j] == name;
                if j < front.len() {
                    assert(front[j] == name);
                }
            }
            if front.contains(name) {
                let j = choose|j: int| 0 <= j < front.len() && front[j] == name;
                assert(requested[j] == name);
            }
            assert(requested[requested.len() - 1] == last);
            if missing.contains(name) {
                let j = choose|j: int| 0 <= j < missing.len() && missing[j] == name;
                if j < earlier.len() {
                    assert(earlier[j] == name);
                }
            }
            if earlier.contains(name) {
                let j = choose|j: int| 0 <= j < earlier.len() && earlier[j] == name;
                assert(missing[j] == name);
            }
            if !present.contains(last) && !earlier.contains(last) {
                assert(missing[missing.len() - 1] == last);
            }
        }
        assert forall|i: int, j: int| 0 <= i < missing.len() && 0 <= j < missing.len() && i != j implies missing[i]
            != missing[j] by {
            if missing.len() > earlier.len() {
                if i < earlier.len() {
                    assert(earlier[i] == missing[i]);
                }
                if j < earlier.len() {
                    assert(earlier[j] == missing[j]);
                }
            }
        }
    }
}

/// As sets, the missing names are the requested ones less the present ones.
pub proof fn lemma_missing_is_set_difference(requested: Seq<Seq<char>>, present: Seq<Seq<char>>)
    ensures
        missing_names(requested, present).to_set() == requested.to_set().difference(present.to_set()),
{
    lemma_missing_holds_each_once(requested, present);
    let missing = missing_names(requested, present);
    let difference = requested.to_set().difference(present.to_set());
    assert forall|name: Seq<char>| missing.to_set().contains(name) <==> difference.contains(name) by {
        assert(missing.contains(name) <==> requested.contains(name) && !present.contains(name));
    }
    assert(missing.to_set() =~= difference);
}

/// The set of missing names does not depend on the order, or on repeats, of
/// either list.
pub proof fn lemma_missing_ignores_order(
    requested: Seq<Seq<char>>,
    present: Seq<Seq<char>>,
    reordered_requested: Seq<Seq<char>>,
    reordered_present: Seq<Seq<char>>,
)
    requires
        requested.to_set() == reordered_requested.to_set(),
        present.to_set() == reordered_present.to_set(),
    ensures
        missing_names(requested, present).to_set() == missing_names(
            reordered_requested,
            reordered_present,
        ).to_set(),
{
    lemma_missing_is_set_difference(requested, present);
    lemma_missing_is_set_difference(reordered_requested, reordered_present);
}

/// Tells whether `list` holds `name`.
pub fn contains_name(list: &Vec<String>, name: &String) -> (found: bool)
    ensures
        found == names_of(list@).contains(name@),
{
    let mut i: usize = 0;
    while i < list.len()
        invariant
            i <= list.len(),
            forall|j: int| 0 <= j < i ==> names_of(list@)[j] != name@,
        decreases list.len() - i,
    {
        if list[i] == *name {
            assert(names_of(list@)[i as int] == name@);
            return true;
        }
        i += 1;
    }
    false
}

/// Returns the requested models that the models directory does not hold,
/// each once, in the order of their first request.
pub fn missing_models(requested: &Vec<String>, present: &Vec<String>) -> (missing: Vec<String>)
    ensures
        names_of(missing@) == missing_names(names_of(requested@), names_of(present@)),
        names_of(missing@).no_duplicates(),
        names_of(missing@).to_set() == names_of(requested@).to_set().difference(
            names_of(present@).to_set(),
        ),
{
    let mut missing: Vec<String> = Vec::new();
    let mut i: usize = 0;
    proof {
        assert(names_of(missing@) =~= missing_names(names_of(requested@).take(0), names_of(present@)));
    }
    while i < requested.len()
        invariant
            i <= requested.len(),
            names_of(missing@) == missing_names(names_of(requested@).take(i as int), names_of(present@)),
        decreases requested.len() - i,
    {
        let ghost seen = names_of(requested@).take(i as int);
        let ghost kept = names_of(missing@);
        let ghost name = requested@[i as int]@;
        let absent = !contains_name(present, &requested[i]) && !contains_name(&missing, &requested[i]);
        if absent {
            missing.push(requested[i].clone());
        }
        proof {
            let next = names_of(requested@).take(i + 1);
            assert(next.drop_last() =~= seen);
            assert(next.last() == name);
            if absent {
                assert(names_of(missing@) =~= kept.push(name));
            }
        }
        i += 1;
    }
    proof {
        assert(names_of(requested@).take(requested.len() as int) =~= names_of(requested@));
        lemma_missing_holds_each_once(names_of(requested@), names_of(present@));
        lemma_missing_is_set_difference(names_of(requested@), names_of(present@));
    }
    missing
}

/// What the client is told about its models: which are missing, and the
/// directory that was searched.
#[derive(Debug)]
pub struct MissingModelsResponse {
    pub missing_models: Vec<String>,
    pub models_dir_path: String,
}

/// Builds the answer for a models directory whose file names are `present`.
pub fn missing_models_response(
    models_dir_path: String,
    requested: &Vec<String>,
    present: &Vec<String>,
) -> (response: MissingModelsResponse)
    ensures
        response.models_dir_path == models_dir_path,
        names_of(response.missing_models@) == missing_names(names_of(requested@), names_of(present@)),
        names_of(response.missing_models@).no_duplicates(),
        names_of(response.missing_models@).to_set() == names_of(requested@).to_set().difference(
            names_of(present@).to_set(),
        ),
{
    MissingModelsResponse { missing_models: missing_models(requested, present), models_dir_path }
}

} // verus!
