//! Small helpers of the request builders.

use vstd::prelude::*;

verus! {

/// The texts joined with `,` between them.
pub open spec fn comma_join(items: Seq<Seq<char>>) -> Seq<char>
    decreases items.len(),
{
    if items.len() == 0 {
        Seq::empty()
    } else if items.len() == 1 {
        items[0]
    } else {
        comma_join(items.drop_last()) + seq![','] + items.last()
    }
}

/// Whether a flag is off (the serializer leaves such flags out).
pub fn is_false(v: &bool) -> (b: bool)
    ensures
        b == !*v,
{
    !*v
}

/// The texts joined with `,` between them.
pub fn iter_to_csv(items: &Vec<String>) -> (s: String)
    ensures
        s@ == comma_join(items@.map_values(|t: String| t@)),
{
    let ghost views = items@.map_values(|t: String| t@);
    let mut s = String::new();
    let mut i: usize = 0;
    while i < items.len()
        invariant
            i <= items@.len(),
            views == items@.map_values(|t: String| t@),
            s@ == comma_join(views.take(i as int)),
        decreases items@.len() - i,
    {
        proof {
            reveal_strlit(",");
        }
        if i > 0 {
            s.append(",");
        }
        s.append(items[i].as_str());
        assert(views.take(i + 1).drop_last() =~= views.take(i as int));
        if i == 0 {
            assert(views.take(0) =~= Seq::<Seq<char>>::empty());
            assert(s@ =~= comma_join(views.take(1)));
        }
        i = i + 1;
    }
    assert(views.take(items@.len() as int) =~= views);
    s
}

} // verus!
