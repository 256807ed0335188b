use vstd::prelude::*;
use crate::banner::BannerError;
use crate::component::{asked_width, lemma_widest_bounds, widest, Component, HostData};
use crate::config::GlobalConfig;
use crate::line::{Constraints, Line};

verus! {

/// The item at `i` of `v`, or `None` past its end.
pub open spec fn nth_or_none<T>(v: Seq<Option<T>>, i: int) -> Option<T> {
    if 0 <= i < v.len() {
        v[i]
    } else {
        None
    }
}

/// Prepares every widget in order.
pub fn prepare_all(components: Vec<Component>, global_config: &GlobalConfig, host: &HostData) -> (r: (Vec<Component>, Vec<Option<Constraints>>))
    requires
        forall|i: int| 0 <= i < components@.len() ==> #[trigger] components@[i].wf(),
    ensures
        r.0@.len() == components@.len(),
        r.1@.len() == components@.len(),
        forall|i: int| 0 <= i < components@.len() ==> #[trigger] components@[i].prepares_to(
            *global_config,
            *host,
            (r.0@[i], r.1@[i]),
        ),
{
    let ghost all = components@;
    let mut rest = components;
    let mut next: Vec<Component> = Vec::new();
    let mut asked: Vec<Option<Constraints>> = Vec::new();
    while rest.len() > 0
        invariant
            next@.len() == asked@.len(),
            next@.len() + rest@.len() == all.len(),
            rest@ == all.subrange(next@.len() as int, all.len() as int),
            forall|i: int| 0 <= i < all.len() ==> #[trigger] all[i].wf(),
            forall|i: int| 0 <= i < next@.len() ==> #[trigger] all[i].prepares_to(
                *global_config,
                *host,
                (next@[i], asked@[i]),
            ),
        decreases rest@.len(),
    {
        let c = rest.remove(0);
        assert(c == all[next@.len() as int]);
        let (n, a) = c.prepare(global_config, host);
        next.push(n);
        asked.push(a);
        assert(rest@ =~= all.subrange(next@.len() as int, all.len() as int));
    }
    (next, asked)
}

/// The width handed to each widget: none where it asked for none, else the
/// widest width any widget asked for.
pub fn assign_widths(constraints: &Vec<Option<Constraints>>) -> (r: Vec<Option<usize>>)
    ensures
        r@.len() == constraints@.len(),
        forall|i: int| 0 <= i < r@.len() ==> (asked_width(constraints@[i]) is None <==> #[trigger] r@[i] is None),
        forall|i: int| 0 <= i < r@.len() && asked_width(constraints@[i]) is Some ==> #[trigger] r@[i]
            == Some(widest(constraints@) as usize),
        forall|i: int| 0 <= i < r@.len() && asked_width(constraints@[i]) is Some ==> #[trigger] r@[i]->Some_0
            >= asked_width(constraints@[i])->Some_0,
{
    let mut most: usize = 0;
    let mut i: usize = 0;
    while i < constraints.len()
        invariant
            i <= constraints@.len(),
            most as int == widest(constraints@.take(i as int)),
        decreases constraints@.len() - i,
    {
        assert(constraints@.take(i as int + 1).drop_last() =~= constraints@.take(i as int));
        match constraints[i] {
            Some(Constraints { min_width: Some(w) }) => {
                if w > most {
                    most = w;
                }
            },
            _ => {},
        }
        i = i + 1;
    }
    assert(constraints@.take(i as int) =~= constraints@);
    let mut r: Vec<Option<usize>> = Vec::new();
    let mut j: usize = 0;
    while j < constraints.len()
        invariant
            j <= constraints@.len(),
            most as int == widest(constraints@),
            r@.len() == j,
            forall|k: int| 0 <= k < j ==> (asked_width(constraints@[k]) is None <==> #[trigger] r@[k] is None),
            forall|k: int| 0 <= k < j && asked_width(constraints@[k]) is Some ==> #[trigger] r@[k] == Some(most),
            forall|k: int| 0 <= k < j && asked_width(constraints@[k]) is Some ==> #[trigger] r@[k]->Some_0
                >= asked_width(constraints@[k])->Some_0,
        decreases constraints@.len() - j,
    {
        proof {
            lemma_widest_bounds(constraints@, j as int);
        }
        match constraints[j] {
            Some(Constraints { min_width: Some(_) }) => r.push(Some(most)),
            _ => r.push(None),
        }
        j = j + 1;
    }
    r
}

/// Draws every widget in order, each in the width assigned to it and with
/// the output of its command; one widget's failure shows only in its own
/// block of lines.
pub fn print_all(
    components: Vec<Component>,
    global_config: &GlobalConfig,
    widths: &Vec<Option<usize>>,
    host: &HostData,
    outputs: Vec<Option<Result<String, BannerError>>>,
) -> (r: Vec<Vec<Line>>)
    requires
        forall|i: int| 0 <= i < components@.len() ==> #[trigger] components@[i].wf(),
    ensures
        r@.len() == components@.len(),
        forall|i: int| 0 <= i < components@.len() ==> #[trigger] components@[i].prints(
            *global_config,
            nth_or_none(widths@, i),
            *host,
            nth_or_none(outputs@, i),
            r@[i]@,
        ),
{
    let ghost all = components@;
    let ghost outs = outputs@;
    let mut rest = components;
    let mut pending = outputs;
    let mut blocks: Vec<Vec<Line>> = Vec::new();
    while rest.len() > 0
        invariant
            blocks@.len() + rest@.len() == all.len(),
            rest@ == all.subrange(blocks@.len() as int, all.len() as int),
            forall|k: int| 0 <= k < pending@.len() ==> #[trigger] pending@[k] == nth_or_none(outs, blocks@.len() + k),
            pending@.len() == 0 || pending@.len() + blocks@.len() == outs.len(),
            pending@.len() == 0 ==> outs.len() <= blocks@.len(),
            forall|i: int| 0 <= i < all.len() ==> #[trigger] all[i].wf(),
            forall|i: int| 0 <= i < blocks@.len() ==> #[trigger] all[i].prints(
                *global_config,
                nth_or_none(widths@, i),
                *host,
                nth_or_none(outs, i),
                blocks@[i]@,
            ),
        decreases rest@.len(),
    {
        let i = blocks.len();
        let c = rest.remove(0);
        assert(c == all[i as int]);
        let width = if i < widths.len() {
            widths[i]
        } else {
            None
        };
        let output = if pending.len() > 0 {
            pending.remove(0)
        } else {
            None
        };
        let lines = c.print(global_config, width, host, output);
        blocks.push(lines);
        assert(rest@ =~= all.subrange(blocks@.len() as int, all.len() as int));
    }
    blocks
}

} // verus!
