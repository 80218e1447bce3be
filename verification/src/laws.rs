//! Properties of the library that relate several operations or hold of
//! every input.

use vstd::prelude::*;
use crate::config::{
    spec_absolutize, spec_build, spec_first_python_entry, spec_is_python_entry,
    spec_python_dir_target, spec_resolve_python_dir, spec_resolve_venv, spec_site_packages_dir,
    spec_venv_lib_dir, spec_venv_root, spec_venv_root_choice, BuilderView, ConfigView, DirEntryInfo,
    HostView, PathKind, DEFAULT_WORKERS,
};
use crate::dispatch::{parse_dispatch_response_spec, ResponseFields, STATUS_INTERNAL_ERROR, STATUS_OK};
use crate::dispatcher::{spec_all_visible, spec_ascii_chars, spec_header_map, spec_is_visible_ascii, spec_python_route_path};
use crate::error::ConfigErrorView;
use crate::paths::{spec_is_absolute, spec_join};
use crate::text::{
    spec_all_digits, spec_decimal, spec_digit_char, spec_digit_value, spec_digits_value, spec_is_digit, spec_is_whitespace,
    spec_join_with_commas, spec_natural_numeral, spec_parse_i64, spec_parse_numbers, spec_signed_value,
    spec_split_commas, spec_trim, spec_trim_end, spec_trim_start,
};
use crate::worker::{pending_wf, spec_following_id, PendingView};

verus! {

/// A builder asking for zero pool workers is refused, whatever the host
/// reports, with an invalid-worker-count error unless the Python directory
/// or the venv is refused first.
pub proof fn law_zero_pool_workers_rejected(b: BuilderView, h: HostView)
    requires
        b.pool_workers == Some(0usize),
    ensures
        spec_build(b, h) is Err,
        spec_resolve_python_dir(b, h) is Ok && spec_resolve_venv(b, h) is Ok ==> spec_build(b, h)
            == Err::<ConfigView, ConfigErrorView>(
            ConfigErrorView::InvalidWorkerCount("pool_workers must be at least 1"@),
        ),
{
}

/// A builder asking for zero dispatch workers is refused, whatever the host
/// reports.
pub proof fn law_zero_dispatch_workers_rejected(b: BuilderView, h: HostView)
    requires
        b.dispatch_workers == Some(0usize),
    ensures
        spec_build(b, h) is Err,
{
}

/// A built configuration has at least one worker of each kind, names a
/// Python directory that the host reports as a directory, keeps the modules
/// in the order they were added, and keeps the signal-handler setting.
pub proof fn law_built_config_valid(b: BuilderView, h: HostView)
    requires
        spec_build(b, h) is Ok,
    ensures
        h.python_dir == PathKind::Directory,
        spec_python_dir_target(b, h.current_dir) == Ok::<Seq<char>, ConfigErrorView>(
            spec_build(b, h)->Ok_0.python_dir,
        ),
        spec_build(b, h)->Ok_0.pool_workers >= 1,
        spec_build(b, h)->Ok_0.dispatch_workers >= 1,
        spec_build(b, h)->Ok_0.modules == b.modules,
        spec_build(b, h)->Ok_0.disable_signal_handler == b.disable_signal_handler,
{
}

/// Unset worker counts default to 4 and async handlers default to enabled.
pub proof fn law_build_defaults(b: BuilderView, h: HostView)
    requires
        spec_build(b, h) is Ok,
    ensures
        b.pool_workers is None ==> spec_build(b, h)->Ok_0.pool_workers == DEFAULT_WORKERS,
        b.dispatch_workers is None ==> spec_build(b, h)->Ok_0.dispatch_workers == DEFAULT_WORKERS,
        b.enable_async is None ==> spec_build(b, h)->Ok_0.enable_async,
{
}

/// An explicit venv overrides `VIRTUAL_ENV`: building does not depend on the
/// variable then.
pub proof fn law_explicit_venv_overrides_env(b: BuilderView, h: HostView, other_env: Option<Seq<char>>)
    requires
        b.venv_path is Some,
    ensures
        spec_resolve_venv(b, h) == spec_resolve_venv(b, HostView { virtual_env: other_env, ..h }),
        spec_build(b, h) == spec_build(b, HostView { virtual_env: other_env, ..h }),
{
    let h2 = HostView { virtual_env: other_env, ..h };
    assert(spec_venv_root_choice(b, h.virtual_env) == spec_venv_root_choice(b, h2.virtual_env));
    assert(spec_resolve_venv(b, h) == spec_resolve_venv(b, h2));
    assert(spec_resolve_python_dir(b, h) == spec_resolve_python_dir(b, h2));
}

/// With no venv configured and `VIRTUAL_ENV` unset or empty, no venv
/// `site-packages` is added and the venv is never the reason a build fails.
pub proof fn law_no_venv_without_setting(b: BuilderView, h: HostView)
    requires
        b.venv_path is None,
        h.virtual_env is None || h.virtual_env->0.len() == 0,
    ensures
        spec_resolve_venv(b, h) == Ok::<Option<Seq<char>>, ConfigErrorView>(None),
        spec_build(b, h) is Ok ==> spec_build(b, h)->Ok_0.venv_site_packages is None,
{
}

/// An absolute Python directory is used as given, whatever the current
/// directory.
pub proof fn law_absolute_python_dir_kept(b: BuilderView, cwd: Result<Seq<char>, Seq<char>>)
    requires
        b.python_dir is Some,
        spec_is_absolute(b.python_dir->0),
    ensures
        spec_python_dir_target(b, cwd) == Ok::<Seq<char>, ConfigErrorView>(b.python_dir->0),
{
}

/// Joining onto an absolute path gives an absolute path.
pub proof fn law_join_keeps_absolute(base: Seq<char>, rel: Seq<char>)
    requires
        spec_is_absolute(base),
    ensures
        spec_is_absolute(spec_join(base, rel)),
{
    if !spec_is_absolute(rel) {
        if base.last() == '/' {
            assert((base + rel)[0] == base[0]);
        } else {
            assert((base + seq!['/'] + rel)[0] == base[0]);
        }
    }
}

/// When the current directory is absolute, the paths of a built
/// configuration are absolute.
pub proof fn law_built_paths_absolute(b: BuilderView, h: HostView)
    requires
        spec_build(b, h) is Ok,
        h.current_dir is Ok,
        spec_is_absolute(h.current_dir->Ok_0),
    ensures
        spec_is_absolute(spec_build(b, h)->Ok_0.python_dir),
        spec_build(b, h)->Ok_0.venv_site_packages matches Some(sp) ==> spec_is_absolute(sp),
{
    let cwd = h.current_dir->Ok_0;
    let p = match b.python_dir {
        Some(p) => p,
        None => "python"@,
    };
    law_join_keeps_absolute(cwd, p);
    match spec_venv_root_choice(b, h.virtual_env) {
        Some(r) => {
            law_join_keeps_absolute(cwd, r);
            let root = spec_absolutize(r, h.current_dir)->Ok_0;
            let lib = spec_venv_lib_dir(root);
            law_join_keeps_absolute(root, "lib"@);
            match spec_first_python_entry(h.venv_lib_entries->0) {
                Some(n) => {
                    law_join_keeps_absolute(lib, n);
                    law_join_keeps_absolute(spec_join(lib, n), "site-packages"@);
                    assert(spec_site_packages_dir(lib, n) == spec_join(spec_join(lib, n), "site-packages"@));
                },
                None => {},
            }
        },
        None => {},
    }
}

/// A registered request is answered by completing its id: completion gives
/// back its waiter and leaves the other waiting requests as they were.
pub proof fn law_register_then_complete<T>(p: PendingView<T>, waiter: T)
    requires
        pending_wf(p),
        p.next_id < u64::MAX,
    ensures
        !p.waiters.contains_key(p.next_id),
        p.waiters.insert(p.next_id, waiter)[p.next_id] == waiter,
        p.waiters.insert(p.next_id, waiter).remove(p.next_id) == p.waiters,
{
    assert(p.waiters.insert(p.next_id, waiter).remove(p.next_id) =~= p.waiters);
}

/// A request is answered at most once: once its id is completed, completing
/// it again finds nothing.
pub proof fn law_complete_once<T>(p: PendingView<T>, id: u64)
    ensures
        !p.waiters.remove(id).contains_key(id),
{
}

/// Requests registered one after another get different ids, as long as the
/// counter does not wrap.
pub proof fn law_fresh_ids(id: u64)
    requires
        id < u64::MAX,
    ensures
        spec_following_id(id) != id,
        spec_following_id(id) > id,
{
}

proof fn lemma_first_python_entry(entries: Seq<DirEntryInfo>)
    ensures
        spec_first_python_entry(entries) is None <==> forall|i: int|
            0 <= i < entries.len() ==> !spec_is_python_entry(#[trigger] entries[i]),
        spec_first_python_entry(entries) matches Some(n) ==> exists|i: int|
            0 <= i < entries.len() && spec_is_python_entry(#[trigger] entries[i])
                && entries[i].name->0@ == n && forall|j: int|
                0 <= j < i ==> !spec_is_python_entry(#[trigger] entries[j]),
    decreases entries.len(),
{
    if entries.len() > 0 {
        let rest = entries.drop_first();
        lemma_first_python_entry(rest);
        assert forall|i: int| 0 < i < entries.len() implies entries[i] == rest[i - 1] by {}
        if !spec_is_python_entry(entries[0]) {
            if spec_first_python_entry(rest) is None {
                assert forall|i: int| 0 <= i < entries.len() implies !spec_is_python_entry(
                    #[trigger] entries[i],
                ) by {
                    if i > 0 {
                        assert(entries[i] == rest[i - 1]);
                    }
                }
            } else {
                let n = spec_first_python_entry(rest)->0;
                let k = choose|k: int|
                    0 <= k < rest.len() && spec_is_python_entry(#[trigger] rest[k])
                        && rest[k].name->0@ == n && forall|j: int|
                        0 <= j < k ==> !spec_is_python_entry(#[trigger] rest[j]);
                assert(entries[k + 1] == rest[k]);
                assert forall|j: int| 0 <= j < k + 1 implies !spec_is_python_entry(
                    #[trigger] entries[j],
                ) by {
                    if j > 0 {
                        assert(entries[j] == rest[j - 1]);
                    }
                }
                assert(!(forall|i: int|
                    0 <= i < entries.len() ==> !spec_is_python_entry(#[trigger] entries[i]))) by {
                    assert(spec_is_python_entry(entries[k + 1]));
                }
            }
        } else {
            assert(spec_is_python_entry(entries[0]));
        }
    }
}

/// The venv's `site-packages` is found by the pattern
/// `<root>/lib/python*/site-packages`: once `lib` exists and can be listed,
/// the venv is refused exactly when no listed entry is a directory named
/// `python*` holding a `site-packages` directory; otherwise the result is
/// the `site-packages` directory of the first such entry in listing order.
pub proof fn law_venv_site_packages_glob(b: BuilderView, h: HostView, root: Seq<char>)
    requires
        spec_venv_root(b, h.current_dir, h.virtual_env) == Ok::<Option<Seq<char>>, ConfigErrorView>(
            Some(root),
        ),
        h.venv_lib != PathKind::Missing,
        h.venv_lib_entries is Some,
    ensures
        spec_resolve_venv(b, h) == Err::<Option<Seq<char>>, ConfigErrorView>(
            ConfigErrorView::VenvInvalid(root),
        ) <==> forall|i: int|
            0 <= i < h.venv_lib_entries->0.len() ==> !spec_is_python_entry(
                #[trigger] h.venv_lib_entries->0[i],
            ),
        spec_resolve_venv(b, h) matches Ok(Some(sp)) ==> exists|i: int|
            0 <= i < h.venv_lib_entries->0.len() && spec_is_python_entry(
                #[trigger] h.venv_lib_entries->0[i],
            ) && sp == spec_site_packages_dir(
                spec_venv_lib_dir(root),
                h.venv_lib_entries->0[i].name->0@,
            ) && forall|j: int|
                0 <= j < i ==> !spec_is_python_entry(#[trigger] h.venv_lib_entries->0[j]),
{
    lemma_first_python_entry(h.venv_lib_entries->0);
}

/// A venv `site-packages` in a built configuration is a `site-packages`
/// directory that the host reports under `lib/python*` of the venv root.
pub proof fn law_built_site_packages_found(b: BuilderView, h: HostView)
    requires
        spec_build(b, h) is Ok,
        spec_build(b, h)->Ok_0.venv_site_packages is Some,
    ensures
        spec_venv_root(b, h.current_dir, h.virtual_env) matches Ok(Some(root)) && exists|i: int|
            0 <= i < h.venv_lib_entries->0.len() && spec_is_python_entry(
                #[trigger] h.venv_lib_entries->0[i],
            ) && spec_build(b, h)->Ok_0.venv_site_packages->0 == spec_site_packages_dir(
                spec_venv_lib_dir(root),
                h.venv_lib_entries->0[i].name->0@,
            ),
{
    lemma_first_python_entry(h.venv_lib_entries->0);
}

/// Two requests registered one after the other get different ids, and each
/// id finds its own waiter.
pub proof fn law_requests_kept_apart<T>(p: PendingView<T>, first: T, second: T)
    requires
        pending_wf(p),
        p.next_id < u64::MAX - 1,
    ensures
        ({
            let id1 = p.next_id;
            let id2 = spec_following_id(id1);
            let after = p.waiters.insert(id1, first).insert(id2, second);
            &&& id1 != id2
            &&& after[id1] == first
            &&& after[id2] == second
            &&& after.remove(id2).remove(id1) == p.waiters
        }),
{
    let id1 = p.next_id;
    let id2 = spec_following_id(id1);
    assert(p.waiters.insert(id1, first).insert(id2, second).remove(id2).remove(id1) =~= p.waiters);
}

/// A successful build keeps every worker count that was set explicitly.
pub proof fn law_build_keeps_worker_counts(b: BuilderView, h: HostView)
    requires
        spec_build(b, h) is Ok,
    ensures
        b.pool_workers matches Some(n) ==> spec_build(b, h)->Ok_0.pool_workers == n,
        b.dispatch_workers matches Some(n) ==> spec_build(b, h)->Ok_0.dispatch_workers == n,
{
}

/// A build that passes the path checks succeeds exactly when both worker
/// counts are at least 1, and then carries the requested counts.
pub proof fn law_build_accepts_positive_counts(b: BuilderView, h: HostView, pool: usize, dispatch: usize)
    requires
        spec_resolve_python_dir(b, h) is Ok,
        spec_resolve_venv(b, h) is Ok,
        b.pool_workers == Some(pool),
        b.dispatch_workers == Some(dispatch),
    ensures
        spec_build(b, h) is Ok <==> (pool >= 1 && dispatch >= 1),
        spec_build(b, h) is Ok ==> spec_build(b, h)->Ok_0.pool_workers == pool
            && spec_build(b, h)->Ok_0.dispatch_workers == dispatch,
{
}

/// A header is passed on exactly when every byte of its value is a tab or
/// lies in 0x20..=0x7E (space included), and then with the bytes as its
/// characters.
pub proof fn law_single_header_passed_on(name: String, value: Vec<u8>)
    ensures
        spec_header_map(seq![(name, value)]).contains_key(name@) <==> forall|i: int|
            0 <= i < value@.len() ==> (0x20 <= #[trigger] value@[i] <= 0x7E || value@[i] == 0x09),
        spec_header_map(seq![(name, value)]).contains_key(name@) ==> spec_header_map(
            seq![(name, value)],
        ) =~= Map::empty().insert(name@, Seq::new(value@.len(), |i: int| value@[i] as char)),
        !spec_header_map(seq![(name, value)]).contains_key(name@) ==> spec_header_map(
            seq![(name, value)],
        ) =~= Map::empty(),
{
    let hs = seq![(name, value)];
    assert(hs.drop_last() =~= Seq::<(String, Vec<u8>)>::empty());
    assert(hs.last() == (name, value));
    assert(spec_header_map(hs.drop_last()) == Map::<Seq<char>, Seq<char>>::empty());
    assert(spec_header_map(hs) == (if spec_all_visible(value@) {
        Map::<Seq<char>, Seq<char>>::empty().insert(name@, spec_ascii_chars(value@))
    } else {
        Map::<Seq<char>, Seq<char>>::empty()
    }));
    assert(spec_all_visible(value@) <==> forall|i: int|
        0 <= i < value@.len() ==> (0x20 <= #[trigger] value@[i] <= 0x7E || value@[i] == 0x09)) by {
        assert forall|i: int| 0 <= i < value@.len() implies (spec_is_visible_ascii(value@[i]) <==> (
        0x20 <= #[trigger] value@[i] <= 0x7E || value@[i] == 0x09)) by {}
    }
}

/// A handler's response is read field by field: on success its data and
/// code are kept as given (200 when no code is given) and no error is
/// reported; otherwise no data is reported, its error is kept as given, and
/// the code is the given one or 500.
pub proof fn law_dispatch_response_fields(fields: ResponseFields)
    ensures
        fields.success == Some(true) ==> {
            let r = parse_dispatch_response_spec(fields);
            &&& r.success
            &&& r.data == fields.data
            &&& r.error is None
            &&& r.code == (if fields.code is Some {
                fields.code->0
            } else {
                200u16
            })
        },
        fields.success != Some(true) ==> {
            let r = parse_dispatch_response_spec(fields);
            &&& !r.success
            &&& r.data is None
            &&& r.error == fields.error
            &&& r.code == (if fields.code is Some {
                fields.code->0
            } else {
                500u16
            })
        },
{
}

/// The route path handed to Python is `/python/` followed by the URL path
/// unchanged, character for character.
pub proof fn law_route_path_keeps_path(path: Seq<char>)
    ensures
        spec_python_route_path(path).len() == 8 + path.len(),
        spec_python_route_path(path).subrange(0, 8) == seq!['/', 'p', 'y', 't', 'h', 'o', 'n', '/'],
        spec_python_route_path(path).subrange(8, spec_python_route_path(path).len() as int) == path,
{
    reveal_strlit("/python/");
    let r = spec_python_route_path(path);
    assert(r.subrange(0, 8) =~= seq!['/', 'p', 'y', 't', 'h', 'o', 'n', '/']);
    assert(r.subrange(8, r.len() as int) =~= path);
}

proof fn lemma_natural_numeral(n: nat)
    ensures
        spec_natural_numeral(n).len() >= 1,
        spec_all_digits(spec_natural_numeral(n)),
        spec_digits_value(spec_natural_numeral(n)) == n,
    decreases n,
{
    let d = spec_digit_char(n % 10);
    assert((d as u32) == (n % 10) + 0x30);
    if n >= 10 {
        lemma_natural_numeral(n / 10);
        let s = spec_natural_numeral(n);
        let t = spec_natural_numeral(n / 10);
        assert(s.drop_last() =~= t);
        assert forall|i: int| 0 <= i < s.len() implies spec_is_digit(#[trigger] s[i]) by {
            if i < t.len() {
                assert(s[i] == t[i]);
            }
        }
        assert(n == (n / 10) * 10 + n % 10);
        assert(s.last() == d);
        assert(spec_digits_value(s) == spec_digits_value(t) * 10 + spec_digit_value(d));
    } else {
        let s = spec_natural_numeral(n);
        assert(s.drop_last() =~= Seq::<char>::empty());
        assert(s.last() == d);
        assert(spec_digits_value(s.drop_last()) == 0);
        assert(spec_digits_value(s) == spec_digit_value(d));
    }
}

proof fn lemma_trim_of_edges(s: Seq<char>)
    requires
        s.len() > 0,
        !spec_is_whitespace(s[0]),
        !spec_is_whitespace(s.last()),
    ensures
        spec_trim(s) == s,
{
    assert(spec_trim_start(s) == s);
    assert(spec_trim_end(s) == s);
}

/// The numeral of an `i64` reads back as that integer.
proof fn lemma_decimal_parses(x: i64)
    ensures
        spec_parse_i64(spec_trim(spec_decimal(x))) == Some(x),
        forall|i: int| 0 <= i < spec_decimal(x).len() ==> #[trigger] spec_decimal(x)[i] != ',',
{
    let s = spec_decimal(x);
    if x < 0 {
        let m = (-x) as nat;
        let num = spec_natural_numeral(m);
        lemma_natural_numeral(m);
        assert(spec_is_digit(num[0]));
        assert(spec_is_digit(num.last()));
        assert(s.drop_first() =~= num);
        assert(s.last() == num.last());
        lemma_trim_of_edges(s);
        assert(spec_signed_value(true, num) == Some(x));
        assert forall|i: int| 0 <= i < s.len() implies #[trigger] s[i] != ',' by {
            if i > 0 {
                assert(s[i] == num[i - 1]);
                assert(spec_is_digit(num[i - 1]));
            }
        }
    } else {
        lemma_natural_numeral(x as nat);
        assert(spec_is_digit(s[0]));
        assert(spec_is_digit(s.last()));
        lemma_trim_of_edges(s);
        assert(spec_signed_value(false, s) == Some(x));
        assert forall|i: int| 0 <= i < s.len() implies #[trigger] s[i] != ',' by {
            assert(spec_is_digit(s[i]));
        }
    }
}

proof fn lemma_split_nonempty_len(s: Seq<char>)
    ensures
        spec_split_commas(s).len() >= 1,
    decreases s.len(),
{
    if s.len() > 0 {
        lemma_split_nonempty_len(s.drop_last());
    }
}

/// Appending text without commas extends the last piece.
proof fn lemma_split_extend(s: Seq<char>, t: Seq<char>)
    requires
        forall|i: int| 0 <= i < t.len() ==> #[trigger] t[i] != ',',
    ensures
        spec_split_commas(s + t) == spec_split_commas(s).update(
            spec_split_commas(s).len() - 1,
            spec_split_commas(s).last() + t,
        ),
    decreases t.len(),
{
    lemma_split_nonempty_len(s);
    let p = spec_split_commas(s);
    if t.len() == 0 {
        assert(s + t =~= s);
        assert(p.last() + t =~= p.last());
        assert(p.update(p.len() - 1, p.last()) =~= p);
    } else {
        let t0 = t.drop_last();
        assert forall|i: int| 0 <= i < t0.len() implies #[trigger] t0[i] != ',' by {
            assert(t0[i] == t[i]);
        }
        lemma_split_extend(s, t0);
        assert((s + t).drop_last() =~= s + t0);
        assert((s + t).last() == t.last());
        assert(t.last() != ',');
        let q = spec_split_commas(s + t0);
        assert(q.len() == p.len());
        assert(q.last() == p.last() + t0);
        assert((p.last() + t0).push(t.last()) =~= p.last() + t);
        assert(q.update(q.len() - 1, q.last().push(t.last())) =~= p.update(p.len() - 1, p.last() + t));
    }
}

/// Splitting comma-free pieces joined with commas gives the pieces back.
proof fn lemma_split_join(ps: Seq<Seq<char>>)
    requires
        ps.len() >= 1,
        forall|k: int, i: int| 0 <= k < ps.len() && 0 <= i < ps[k].len() ==> #[trigger] ps[k][i] != ',',
    ensures
        spec_split_commas(spec_join_with_commas(ps)) == ps,
    decreases ps.len(),
{
    let last = ps.last();
    assert forall|i: int| 0 <= i < last.len() implies #[trigger] last[i] != ',' by {
        assert(ps[ps.len() - 1][i] != ',');
    }
    if ps.len() == 1 {
        let e = Seq::<char>::empty();
        lemma_split_extend(e, last);
        assert(e + last =~= last);
        assert(spec_split_commas(e) == seq![e]);
        assert(seq![e].update(0, e + last) =~= ps);
    } else {
        let front = ps.drop_last();
        assert forall|k: int, i: int| 0 <= k < front.len() && 0 <= i < front[k].len() implies #[trigger] front[k][i]
            != ',' by {
            assert(front[k] == ps[k]);
        }
        lemma_split_join(front);
        let j = spec_join_with_commas(front);
        let jc = j + seq![','];
        assert(jc.drop_last() =~= j);
        assert(spec_split_commas(jc) == front.push(Seq::<char>::empty()));
        lemma_split_extend(jc, last);
        assert(jc + last =~= spec_join_with_commas(ps));
        assert(front.push(Seq::<char>::empty()).update(front.len() as int, Seq::<char>::empty() + last)
            =~= ps);
    }
}

/// Any non-empty list of integers, written as decimal numerals joined with
/// commas, parses back to that list: one integer per piece, in order, with
/// no bound on how many.
pub proof fn law_parse_numbers_of_rendered(xs: Seq<i64>)
    requires
        xs.len() >= 1,
    ensures
        spec_parse_numbers(spec_join_with_commas(xs.map_values(|x: i64| spec_decimal(x)))) == Some(xs),
{
    let ps = xs.map_values(|x: i64| spec_decimal(x));
    assert forall|k: int, i: int| 0 <= k < ps.len() && 0 <= i < ps[k].len() implies #[trigger] ps[k][i]
        != ',' by {
        lemma_decimal_parses(xs[k]);
    }
    lemma_split_join(ps);
    let pieces = spec_split_commas(spec_join_with_commas(ps));
    assert forall|i: int| 0 <= i < pieces.len() implies (#[trigger] spec_parse_i64(spec_trim(pieces[i])))
        is Some by {
        lemma_decimal_parses(xs[i]);
    }
    assert forall|i: int| 0 <= i < pieces.len() implies spec_parse_i64(spec_trim(#[trigger] pieces[i]))->0
        == xs[i] by {
        lemma_decimal_parses(xs[i]);
    }
    assert(pieces.map_values(|p: Seq<char>| spec_parse_i64(spec_trim(p))->0) =~= xs);
}

} // verus!
