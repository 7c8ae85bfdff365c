use crate::defaults::{first_sep, interp_target, is_blank, is_comment, is_interp, run_lines,
    step_line};
use crate::error::ErrorModel;
use crate::store::apply_pairs;
use crate::sync::{spec_dump, spec_hydrate, SyncConfig};
use crate::value::{as_duration_secs, as_mapping, as_path, as_signed_size, as_text, as_u32, as_u64,
    as_unsigned_size, ValueModel};
use vstd::prelude::*;

verus! {

/// Whether a layer's contribution defines the path `p`.
pub open spec fn layer_defines(ps: Seq<(Seq<char>, ValueModel)>, p: Seq<char>) -> bool {
    exists|i: int| 0 <= i < ps.len() && ps[i].0 == p
}

/// The value the last pair of the layer gives `p`.
pub open spec fn last_def(ps: Seq<(Seq<char>, ValueModel)>, p: Seq<char>) -> ValueModel
    decreases ps.len(),
{
    if ps.len() == 0 {
        ValueModel::Text(Seq::empty())
    } else if ps.last().0 == p {
        ps.last().1
    } else {
        last_def(ps.drop_last(), p)
    }
}

/// A layer that does not define `p` leaves `p` exactly as it was.
pub proof fn lemma_apply_pairs_absent(
    m: Map<Seq<char>, ValueModel>,
    ps: Seq<(Seq<char>, ValueModel)>,
    p: Seq<char>,
)
    requires
        !layer_defines(ps, p),
    ensures
        apply_pairs(m, ps).contains_key(p) == m.contains_key(p),
        m.contains_key(p) ==> apply_pairs(m, ps)[p] == m[p],
    decreases ps.len(),
{
    if ps.len() > 0 {
        assert(ps.last().0 != p) by {
            if ps.last().0 == p {
                assert(layer_defines(ps, p));
            }
        }
        assert(!layer_defines(ps.drop_last(), p)) by {
            if layer_defines(ps.drop_last(), p) {
                let i = choose|i: int|
                    0 <= i < ps.drop_last().len() && ps.drop_last()[i].0 == p;
                assert(ps[i].0 == p);
            }
        }
        lemma_apply_pairs_absent(m, ps.drop_last(), p);
    }
}

/// A layer that defines `p` leaves its last pair for `p` in the mapping.
pub proof fn lemma_apply_pairs_defined(
    m: Map<Seq<char>, ValueModel>,
    ps: Seq<(Seq<char>, ValueModel)>,
    p: Seq<char>,
)
    requires
        layer_defines(ps, p),
    ensures
        apply_pairs(m, ps).contains_key(p),
        apply_pairs(m, ps)[p] == last_def(ps, p),
    decreases ps.len(),
{
    if ps.last().0 != p {
        assert(layer_defines(ps.drop_last(), p)) by {
            let i = choose|i: int| 0 <= i < ps.len() && ps[i].0 == p;
            assert(ps.drop_last()[i] == ps[i]);
        }
        lemma_apply_pairs_defined(m, ps.drop_last(), p);
    }
}

/// Law: a path the default layer defines and the file, environment and
/// command-line layers leave alone keeps exactly its default value in the
/// built configuration.
pub proof fn lemma_default_survives(
    defaults: Map<Seq<char>, ValueModel>,
    file: Seq<(Seq<char>, ValueModel)>,
    env: Seq<(Seq<char>, ValueModel)>,
    cli: Seq<(Seq<char>, ValueModel)>,
    p: Seq<char>,
)
    requires
        defaults.contains_key(p),
        !layer_defines(file, p),
        !layer_defines(env, p),
        !layer_defines(cli, p),
    ensures
        apply_pairs(apply_pairs(apply_pairs(defaults, file), env), cli).contains_key(p),
        apply_pairs(apply_pairs(apply_pairs(defaults, file), env), cli)[p] == defaults[p],
{
    lemma_apply_pairs_absent(defaults, file, p);
    lemma_apply_pairs_absent(apply_pairs(defaults, file), env, p);
    lemma_apply_pairs_absent(apply_pairs(apply_pairs(defaults, file), env), cli, p);
}

/// Law: whatever combination of layers defines a path, the latest-applied
/// defining layer wins — command line over environment over file over
/// defaults — and a path no layer defines stays undefined.
pub proof fn lemma_latest_layer_wins(
    defaults: Map<Seq<char>, ValueModel>,
    file: Seq<(Seq<char>, ValueModel)>,
    env: Seq<(Seq<char>, ValueModel)>,
    cli: Seq<(Seq<char>, ValueModel)>,
    p: Seq<char>,
)
    ensures
        ({
            let built = apply_pairs(apply_pairs(apply_pairs(defaults, file), env), cli);
            if layer_defines(cli, p) {
                built.contains_key(p) && built[p] == last_def(cli, p)
            } else if layer_defines(env, p) {
                built.contains_key(p) && built[p] == last_def(env, p)
            } else if layer_defines(file, p) {
                built.contains_key(p) && built[p] == last_def(file, p)
            } else if defaults.contains_key(p) {
                built.contains_key(p) && built[p] == defaults[p]
            } else {
                !built.contains_key(p)
            }
        }),
{
    let m1 = apply_pairs(defaults, file);
    let m2 = apply_pairs(m1, env);
    if layer_defines(cli, p) {
        lemma_apply_pairs_defined(m2, cli, p);
    } else if layer_defines(env, p) {
        lemma_apply_pairs_defined(m1, env, p);
        lemma_apply_pairs_absent(m2, cli, p);
    } else if layer_defines(file, p) {
        lemma_apply_pairs_defined(defaults, file, p);
        lemma_apply_pairs_absent(m1, env, p);
        lemma_apply_pairs_absent(m2, cli, p);
    } else {
        lemma_apply_pairs_absent(defaults, file, p);
        lemma_apply_pairs_absent(m1, env, p);
        lemma_apply_pairs_absent(m2, cli, p);
    }
}

/// Law: applying the command-line layer with empty file and environment
/// contributions never perturbs a default path the command line leaves alone.
pub proof fn lemma_cli_only_preserves_defaults(
    defaults: Map<Seq<char>, ValueModel>,
    cli: Seq<(Seq<char>, ValueModel)>,
    p: Seq<char>,
)
    requires
        defaults.contains_key(p),
        !layer_defines(cli, p),
    ensures
        ({
            let built = apply_pairs(
                apply_pairs(apply_pairs(defaults, Seq::empty()), Seq::empty()),
                cli,
            );
            built.contains_key(p) && built[p] == defaults[p]
        }),
{
    lemma_default_survives(defaults, Seq::empty(), Seq::empty(), cli, p);
}

/// Running the records decomposes at any cut: the first records run first, and
/// a failure among them fails the whole run.
pub proof fn lemma_run_lines_split(m: Map<Seq<char>, ValueModel>, ls: Seq<Seq<char>>, i: int)
    requires
        0 <= i <= ls.len(),
    ensures
        run_lines(m, ls) == (match run_lines(m, ls.take(i)) {
            Ok(mi) => run_lines(mi, ls.skip(i)),
            Err(e) => Err::<Map<Seq<char>, ValueModel>, ErrorModel>(e),
        }),
    decreases i,
{
    if i == 0 {
        assert(ls.take(0) =~= Seq::<Seq<char>>::empty());
        assert(ls.skip(0) =~= ls);
    } else {
        let t = ls.take(i);
        assert(t[0] == ls[0]);
        match step_line(m, ls[0]) {
            Ok(m1) => {
                assert(t.drop_first() =~= ls.drop_first().take(i - 1));
                assert(ls.skip(i) =~= ls.drop_first().skip(i - 1));
                lemma_run_lines_split(m1, ls.drop_first(), i - 1);
            },
            Err(_) => {},
        }
    }
}

/// The raw value of a `key = value` record: everything after the first ` = `.
pub open spec fn record_raw(l: Seq<char>) -> Seq<char> {
    match first_sep(l) {
        Some(i) => l.subrange(i + 3, l.len() as int),
        None => l,
    }
}

/// Law: interpolation is resolved top to bottom, so a record whose value
/// references a path that the records above it do not define — a forward
/// reference among them — fails the whole default layer.
pub proof fn lemma_forward_reference_fails(
    ls: Seq<Seq<char>>,
    i: int,
    mi: Map<Seq<char>, ValueModel>,
)
    requires
        0 <= i < ls.len(),
        run_lines(Map::empty(), ls.take(i)) == Ok::<Map<Seq<char>, ValueModel>, ErrorModel>(mi),
        !is_blank(ls[i]),
        !is_comment(ls[i]),
        first_sep(ls[i]) is Some,
        is_interp(record_raw(ls[i])),
        !mi.contains_key(interp_target(record_raw(ls[i]))),
    ensures
        run_lines(Map::empty(), ls) is Err,
{
    lemma_run_lines_split(Map::empty(), ls, i);
    let rest = ls.skip(i);
    assert(rest[0] == ls[i]);
    assert(step_line(mi, ls[i]) is Err);
}

/// Law: converting a tagged value to its own matching native type keeps the
/// value's payload exactly.
pub proof fn lemma_conversion_idempotent(v: ValueModel)
    ensures
        v matches ValueModel::Text(s) ==> as_text(v) == Some(s),
        v matches ValueModel::UnsignedSize(n) ==> as_unsigned_size(v) == Some(n),
        v matches ValueModel::U64(n) ==> as_u64(v) == Some(n),
        v matches ValueModel::U32(n) ==> as_u32(v) == Some(n),
        v matches ValueModel::SignedSize(n) ==> as_signed_size(v) == Some(n),
        v matches ValueModel::Duration(n) ==> as_duration_secs(v) == Some(n),
        v matches ValueModel::FilesystemPath(p) ==> as_path(v) == Some(p),
        v matches ValueModel::OptionalStringMapping(m) ==> as_mapping(v) == Some(m),
{
}

/// The (path, value) pairs of a dump, stripped of their metadata.
pub open spec fn dump_pairs(ts: Seq<(Seq<char>, ValueModel, crate::metadata::MetadataModel)>) -> Seq<
    (Seq<char>, ValueModel),
> {
    ts.map(|i: int, t: (Seq<char>, ValueModel, crate::metadata::MetadataModel)| (t.0, t.1))
}

/// Law: hydrating from a configuration built of exactly a component's own
/// dump reproduces that component — hydrate, dump, re-hydrate is idempotent.
pub proof fn lemma_dump_rehydrate(s: SyncConfig)
    ensures
        spec_hydrate(apply_pairs(Map::empty(), dump_pairs(spec_dump(s)))) == Ok::<
            SyncConfig,
            ErrorModel,
        >(s),
{
    reveal_strlit("sync.block_propagation_sleep_duration");
    reveal_strlit("sync.recoverable_error_sleep_duration");
    reveal_strlit("sync.blocks_max_stream_size");
    reveal_strlit("sync.state_updates_max_stream_size");
    let k1 = "sync.block_propagation_sleep_duration"@;
    let k2 = "sync.recoverable_error_sleep_duration"@;
    let k3 = "sync.blocks_max_stream_size"@;
    let k4 = "sync.state_updates_max_stream_size"@;
    assert(k1 != k2) by {
        assert(k1[5] == 'b' && k2[5] == 'r');
    }
    assert(k1.len() == 37 && k2.len() == 37 && k3.len() == 27 && k4.len() == 34);
    assert(k1 != k3 && k1 != k4 && k2 != k3 && k2 != k4 && k3 != k4);
    let v1 = ValueModel::Duration(s.block_propagation_sleep_duration as nat);
    let v2 = ValueModel::Duration(s.recoverable_error_sleep_duration as nat);
    let v3 = ValueModel::U32(s.blocks_max_stream_size as nat);
    let v4 = ValueModel::U32(s.state_updates_max_stream_size as nat);
    let ps = dump_pairs(spec_dump(s));
    let q = seq![(k1, v1), (k2, v2), (k3, v3), (k4, v4)];
    assert(ps =~= q);
    assert(q.drop_last() =~= seq![(k1, v1), (k2, v2), (k3, v3)]);
    assert(q.drop_last().drop_last() =~= seq![(k1, v1), (k2, v2)]);
    assert(q.drop_last().drop_last().drop_last() =~= seq![(k1, v1)]);
    assert(q.drop_last().drop_last().drop_last().drop_last() =~= Seq::<(
        Seq<char>,
        ValueModel,
    )>::empty());
    let m = apply_pairs(Map::empty(), q);
    assert(m == Map::<Seq<char>, ValueModel>::empty().insert(k1, v1).insert(k2, v2).insert(
        k3,
        v3,
    ).insert(k4, v4)) by {
        reveal_with_fuel(apply_pairs, 5);
        assert(q.len() == 4 && q.last() == (k4, v4));
        assert(q.drop_last().len() == 3 && q.drop_last().last() == (k3, v3));
        assert(q.drop_last().drop_last().len() == 2 && q.drop_last().drop_last().last() == (
            k2,
            v2,
        ));
        assert(q.drop_last().drop_last().drop_last().len() == 1
            && q.drop_last().drop_last().drop_last().last() == (k1, v1));
    }
    assert(m.contains_key(k1) && m[k1] == v1);
    assert(m.contains_key(k2) && m[k2] == v2);
    assert(m.contains_key(k3) && m[k3] == v3);
    assert(m.contains_key(k4) && m[k4] == v4);
    assert(spec_hydrate(m) == Ok::<SyncConfig, ErrorModel>(s));
}

} // verus!
