use vstd::prelude::*;

verus! {

/// The texts of a list of serial numbers.
pub open spec fn serial_texts(list: Seq<String>) -> Seq<Seq<char>> {
    list.map_values(|s: String| s@)
}

/// The serial numbers that appear in `a` and not in `b`.
pub open spec fn missing_from(a: Seq<Seq<char>>, b: Seq<Seq<char>>) -> Set<Seq<char>> {
    a.to_set().difference(b.to_set())
}

/// `list` holds a serial number equal to `serial`.
fn holds_serial(list: &Vec<String>, serial: &String) -> (r: bool)
    ensures
        r == serial_texts(list@).contains(serial@),
{
    let mut i: usize = 0;
    while i < list.len()
        invariant
            i <= list@.len(),
            forall|j: int| 0 <= j < i ==> list@[j]@ != serial@,
        decreases list.len() - i,
    {
        if list[i] == *serial {
            assert(serial_texts(list@)[i as int] == serial@);
            return true;
        }
        i = i + 1;
    }
    proof {
        if serial_texts(list@).contains(serial@) {
            let k = choose|k: int| 0 <= k < serial_texts(list@).len() && serial_texts(list@)[k] == serial@;
            assert(list@[k]@ == serial@);
        }
    }
    false
}

/// The serial numbers of `a` that `b` does not hold, each once.
pub fn serials_missing_from(a: &Vec<String>, b: &Vec<String>) -> (r: Vec<String>)
    ensures
        serial_texts(r@).to_set() == missing_from(serial_texts(a@), serial_texts(b@)),
        serial_texts(r@).no_duplicates(),
{
    let mut r: Vec<String> = Vec::new();
    let mut i: usize = 0;
    while i < a.len()
        invariant
            i <= a@.len(),
            serial_texts(r@).no_duplicates(),
            forall|x: Seq<char>| #[trigger] serial_texts(r@).contains(x) <==> (serial_texts(
                a@.subrange(0, i as int),
            ).contains(x) && !serial_texts(b@).contains(x)),
        decreases a.len() - i,
    {
        let serial = &a[i];
        let in_b = holds_serial(b, serial);
        let in_r = holds_serial(&r, serial);
        let ghost before = serial_texts(r@);
        assert(forall|x: Seq<char>| #[trigger] before.contains(x) <==> (serial_texts(
            a@.subrange(0, i as int),
        ).contains(x) && !serial_texts(b@).contains(x)));
        if !in_b && !in_r {
            r.push(serial.clone());
            assert(serial_texts(r@) =~= before.push(serial@));
        }
        proof {
            assert(serial_texts(a@.subrange(0, i + 1)) =~= serial_texts(a@.subrange(0, i as int)).push(
                serial@,
            ));
            assert forall|x: Seq<char>| #[trigger] serial_texts(r@).contains(x) <==> (serial_texts(
                a@.subrange(0, i + 1),
            ).contains(x) && !serial_texts(b@).contains(x)) by {
                let old_prefix = serial_texts(a@.subrange(0, i as int));
                let new_prefix = serial_texts(a@.subrange(0, i + 1));
                if new_prefix.contains(x) && !old_prefix.contains(x) {
                    let k = choose|k: int| 0 <= k < new_prefix.len() && new_prefix[k] == x;
                    assert(k == i);
                }
                if old_prefix.contains(x) {
                    let k = choose|k: int| 0 <= k < old_prefix.len() && old_prefix[k] == x;
                    assert(new_prefix[k] == x);
                }
                if x == serial@ {
                    if !in_b && !in_r {
                        assert(serial_texts(r@)[before.len() as int] == x);
                    }
                    assert(new_prefix[i as int] == x);
                }
                if serial_texts(r@).contains(x) && !before.contains(x) {
                    let k = choose|k: int| 0 <= k < serial_texts(r@).len() && serial_texts(r@)[k] == x;
                    assert(k == before.len());
                }
                if before.contains(x) {
                    let k = choose|k: int| 0 <= k < before.len() && before[k] == x;
                    assert(serial_texts(r@)[k] == x);
                }
            }
        }
        i = i + 1;
    }
    assert(a@.subrange(0, a@.len() as int) =~= a@);
    assert(serial_texts(r@).to_set() =~= missing_from(serial_texts(a@), serial_texts(b@)));
    r
}

/// After the boards that newly appeared are taken in, every board detected
/// is managed, and the boards taken in were not managed before.
pub proof fn law_every_detected_board_is_managed(managed: Seq<Seq<char>>, detected: Seq<Seq<char>>)
    ensures
        detected.to_set().subset_of(managed.to_set().union(missing_from(detected, managed))),
        missing_from(detected, managed).disjoint(managed.to_set()),
        missing_from(managed, detected).disjoint(detected.to_set()),
{
}

} // verus!
