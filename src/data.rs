use vstd::prelude::*;
use vstd::string::StringExecFns;
use crate::future::Immediate;

verus! {

/// How a data source can fail.
#[derive(Debug, Clone, Copy, PartialEq, Eq, Structural)]
pub enum DataError {
    Unavailable,
}

/// How many items `get_ok_data` gathers.
pub const BATCH: usize = 10;

pub open spec fn hello() -> Seq<char> {
    seq!['H', 'e', 'l', 'l', 'o']
}

pub open spec fn shmyak() -> Seq<char> {
    seq!['s', 'h', 'm', 'y', 'a', 'k']
}

/// One item of data.
pub fn get_data() -> (r: Result<String, DataError>)
    ensures
        r is Ok && r->Ok_0@ == hello(),
{
    proof {
        reveal_strlit("Hello");
    }
    Ok("Hello".to_owned())
}

/// `BATCH` items gathered one after another, in order.
pub fn get_ok_data() -> (r: Result<Vec<String>, DataError>)
    ensures
        r is Ok,
        r->Ok_0@.len() == BATCH,
        forall|i: int| 0 <= i < BATCH ==> (#[trigger] r->Ok_0@[i])@ == hello(),
{
    let mut dst: Vec<String> = Vec::new();
    let mut i: usize = 0;
    while i < BATCH
        invariant
            i <= BATCH,
            dst@.len() == i,
            forall|j: int| 0 <= j < i ==> (#[trigger] dst@[j])@ == hello(),
        decreases BATCH - i,
    {
        match get_data() {
            Ok(data) => dst.push(data),
            Err(_) => {},
        }
        i = i + 1;
    }
    Ok(dst)
}

/// One item of data, as a future.
pub fn get_data_fp_style() -> (f: Immediate<String, DataError>)
    ensures
        f.outcome() is Some && f.outcome()->0 is Ok && f.outcome()->0->Ok_0@ == hello(),
{
    proof {
        reveal_strlit("Hello");
    }
    Immediate::ok("Hello".to_owned())
}

/// `BATCH` items gathered by folding over a stream of `BATCH` units, each
/// step running `get_data_fp_style` to completion.
pub fn get_ok_data_fp_style() -> (f: Immediate<Vec<String>, DataError>)
    ensures
        f.outcome() is Some,
        f.outcome()->0 is Ok,
        f.outcome()->0->Ok_0@.len() == BATCH,
        forall|i: int| 0 <= i < BATCH ==> (#[trigger] f.outcome()->0->Ok_0@[i])@ == hello(),
{
    let mut dst: Vec<String> = Vec::new();
    let mut i: usize = 0;
    while i < BATCH
        invariant
            i <= BATCH,
            dst@.len() == i,
            forall|j: int| 0 <= j < i ==> (#[trigger] dst@[j])@ == hello(),
        decreases BATCH - i,
    {
        match get_data_fp_style().wait() {
            Ok(item) => dst.push(item),
            Err(e) => {
                return Immediate::err(e);
            },
        }
        i = i + 1;
    }
    Immediate::ok(dst)
}

/// A message, as a future.
pub fn get_message() -> (f: Immediate<String, DataError>)
    ensures
        f.outcome() is Some && f.outcome()->0 is Ok && f.outcome()->0->Ok_0@ == shmyak(),
{
    proof {
        reveal_strlit("shmyak");
    }
    Immediate::ok("shmyak".to_owned())
}

/// Runs every future to completion, in order: the values in the order of
/// the futures, or the first error.
pub fn join_all<T, E>(futs: Vec<Immediate<T, E>>) -> (r: Result<Vec<T>, E>)
    requires
        forall|i: int| 0 <= i < futs@.len() ==> (#[trigger] futs@[i]).outcome() is Some,
    ensures
        match r {
            Ok(vals) => vals@.len() == futs@.len() && forall|i: int|
                0 <= i < futs@.len() ==> (#[trigger] futs@[i]).outcome() == Some(
                    Ok::<T, E>(vals@[i]),
                ),
            Err(e) => exists|k: int|
                0 <= k < futs@.len() && (#[trigger] futs@[k]).outcome() == Some(Err::<T, E>(e))
                    && forall|i: int| 0 <= i < k ==> (#[trigger] futs@[i]).outcome()->0 is Ok,
        },
{
    let mut vals: Vec<T> = Vec::new();
    let mut rest = futs;
    let ghost all = rest@;
    let ghost n = all.len();
    while rest.len() > 0
        invariant
            n == all.len(),
            all == futs@,
            vals@.len() + rest@.len() == n,
            rest@ == all.subrange(vals@.len() as int, n as int),
            forall|i: int| 0 <= i < n ==> (#[trigger] all[i]).outcome() is Some,
            forall|i: int| 0 <= i < vals@.len() ==> all[i].outcome() == Some(Ok::<T, E>(#[trigger] vals@[i])),
        decreases rest@.len(),
    {
        let f = rest.remove(0);
        let ghost k = vals@.len() as int;
        assert(f == all[k]);
        match f.wait() {
            Ok(v) => vals.push(v),
            Err(e) => {
                assert(forall|i: int| 0 <= i < k ==> (#[trigger] all[i]).outcome()->0 is Ok) by {
                    assert forall|i: int| 0 <= i < k implies (#[trigger] all[i]).outcome()->0 is Ok by {
                        assert(all[i].outcome() == Some(Ok::<T, E>(vals@[i])));
                    }
                }
                assert(futs@[k] == all[k]);
                return Err(e);
            },
        }
    }
    Ok(vals)
}

/// The greeting that `print_multi` prints for each of its futures.
pub open spec fn greeting() -> Seq<char> {
    seq!['H', 'e', 'l', 'l', 'o', ' ', 'c', 'a', 'r', 'l', ' '] + shmyak()
}

/// `BATCH` greetings, each built from a shared name and the message of its
/// own future, joined in order.
pub fn print_multi() -> (r: Result<Vec<String>, DataError>)
    ensures
        r is Ok,
        r->Ok_0@.len() == BATCH,
        forall|i: int| 0 <= i < BATCH ==> (#[trigger] r->Ok_0@[i])@ == greeting(),
{
    let name = "carl";
    let mut futs: Vec<Immediate<String, DataError>> = Vec::new();
    let mut i: usize = 0;
    proof {
        reveal_strlit("carl");
    }
    while i < BATCH
        invariant
            i <= BATCH,
            futs@.len() == i,
            name@ == seq!['c', 'a', 'r', 'l'],
            forall|j: int|
                0 <= j < i ==> (#[trigger] futs@[j]).outcome() is Some && futs@[j].outcome()->0 is Ok
                    && futs@[j].outcome()->0->Ok_0@ == greeting(),
        decreases BATCH - i,
    {
        match get_message().wait() {
            Ok(message) => {
                proof {
                    reveal_strlit("Hello ");
                    reveal_strlit(" ");
                }
                let mut line = "Hello ".to_owned();
                line.append(name);
                line.append(" ");
                line.append(message.as_str());
                assert(line@ =~= greeting());
                futs.push(Immediate::ok(line));
            },
            Err(e) => futs.push(Immediate::err(e)),
        }
        i = i + 1;
    }
    let r = join_all(futs);
    match r {
        Ok(lines) => {
            assert forall|i: int| 0 <= i < BATCH implies (#[trigger] lines@[i])@ == greeting() by {
                assert(futs@[i].outcome() == Some(Ok::<String, DataError>(lines@[i])));
            }
            Ok(lines)
        },
        Err(e) => Err(e),
    }
}

/// A message, as a future whose error is a static text.
pub fn get_message1() -> (f: Immediate<String, &'static str>)
    ensures
        f.outcome() is Some && f.outcome()->0 is Ok && f.outcome()->0->Ok_0@ == shmyak(),
{
    proof {
        reveal_strlit("shmyak");
    }
    Immediate::ok("shmyak".to_owned())
}

/// The reply of `my_op` to "foo".
pub open spec fn foo_reply() -> Seq<char> {
    seq!['F', 'O', 'O', ' ', '=', ' '] + shmyak()
}

pub open spec fn op_failure() -> Seq<char> {
    seq![
        's', 'o', 'm', 'e', 't', 'h', 'i', 'n', 'g', ' ', 'w', 'e', 'n', 't', ' ', 'w', 'r', 'o', 'n',
        'g',
    ]
}

/// For "foo", a future of the message prefixed by "FOO = "; for anything
/// else, a failed future.
pub fn my_op(arg: String) -> (f: Immediate<String, &'static str>)
    ensures
        f.outcome() is Some,
        arg@ == seq!['f', 'o', 'o'] ==> f.outcome()->0 is Ok && f.outcome()->0->Ok_0@ == foo_reply(),
        arg@ != seq!['f', 'o', 'o'] ==> f.outcome()->0 is Err && f.outcome()->0->Err_0@ == op_failure(),
{
    proof {
        reveal_strlit("foo");
        reveal_strlit("FOO = ");
        reveal_strlit("something went wrong");
    }
    let foo = "foo".to_owned();
    assert(foo@ =~= seq!['f', 'o', 'o']);
    if arg == foo {
        match get_message1().wait() {
            Ok(m) => {
                let mut out = "FOO = ".to_owned();
                out.append(m.as_str());
                assert(out@ =~= foo_reply());
                Immediate::ok(out)
            },
            Err(e) => Immediate::err(e),
        }
    } else {
        let msg: &'static str = "something went wrong";
        assert(msg@ =~= op_failure());
        Immediate::err(msg)
    }
}

} // verus!
