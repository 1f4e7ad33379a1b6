//! An interface with methods of many signatures, and an implementation of it.
use vstd::prelude::*;
use vstd::utf8::encode_utf8;

use crate::abi::callee::{panic_outcome, panicked, read_args, refusal, refused, return_value, returned};
use crate::abi::compat::MethodModel;
use crate::abi::connection::{AbiExportable, CallOutcome, RawAbiCallResult};
use crate::abi::definition::{AbiMethod, AbiTraitDefinition};
use crate::interfaces::arguments::{overflow_message, unknown_method_message, unreadable_message};
use crate::interfaces::{arg, make_method, method_model, no_args, one_arg, two_args};
use crate::schema::nodes::SchemaNodeModel;
use crate::schema::with_schema::{get_schema, WithSchema};
use crate::traits::{Deserialize, Model, Serialize};
use crate::versioning::ValueConstructor;

verus! {

/// Makes the number 42, to stand in for a removed field.
pub struct FortyTwoConstructor {}

impl ValueConstructor<u32> for FortyTwoConstructor {
    open spec fn value_model() -> u32 {
        42
    }

    fn make_value() -> (r: u32) {
        42
    }
}

/// Holds a number that can be set and read.
pub trait CallbackInterface {
    /// Stores `x`.
    fn set(&mut self, x: u32);

    /// The stored number.
    fn get(&self) -> u32;
}

/// An implementation of [`CallbackInterface`].
pub struct CallbackImpl {
    pub x: u32,
}

impl CallbackInterface for CallbackImpl {
    fn set(&mut self, x: u32) {
        self.x = x;
    }

    fn get(&self) -> u32 {
        self.x
    }
}

/// The number of pairs of a list of `a` items and one of `b` items.
pub open spec fn pair_count(a: nat, b: nat) -> nat {
    if a <= b {
        a
    } else {
        b
    }
}

/// Whether each pair of numbers, taken from the fronts of `a` and `b`, has a sum that fits.
pub open spec fn sums_fit(a: Seq<u32>, b: Seq<u32>) -> bool {
    forall|i: int| 0 <= i < pair_count(a.len(), b.len()) ==> a[i] + b[i] <= u32::MAX
}

/// The sums of the pairs of numbers taken from the fronts of `a` and `b`.
pub open spec fn pairwise_sums(a: Seq<u32>, b: Seq<u32>) -> Seq<u32> {
    Seq::new(pair_count(a.len(), b.len()), |i: int| (a[i] + b[i]) as u32)
}

/// The joined texts of the pairs taken from the fronts of `a` and `b`.
pub open spec fn pairwise_joins(a: Seq<Seq<char>>, b: Seq<Seq<char>>) -> Seq<Seq<char>> {
    Seq::new(pair_count(a.len(), b.len()), |i: int| a[i] + b[i])
}

/// Methods of many signatures.
pub trait TestInterface {
    /// Does nothing.
    fn do_nothing(&self);

    /// The pairwise sums of the numbers at the fronts of `a` and `b`.
    fn arrays_add(&self, a: &[u32], b: &[u32]) -> (r: Vec<u32>)
        requires
            sums_fit(a@, b@),
        ensures
            r@ == pairwise_sums(a@, b@),
    ;

    /// The pairwise joins of the texts at the fronts of `a` and `b`.
    fn string_arrays_add(&self, a: &[String], b: &[String]) -> (r: Vec<String>)
        ensures
            r@.map_values(|s: String| s@) == pairwise_joins(
                a@.map_values(|s: String| s@),
                b@.map_values(|s: String| s@),
            ),
    ;

    /// The number behind the reference.
    fn deref_u32(&self, x: &u32) -> (r: u32)
        ensures
            r == *x,
    ;

    /// The number of UTF-8 bytes of `x`.
    fn count_chars(&self, x: &String) -> (r: usize)
        ensures
            r == encode_utf8(x@).len(),
    ;

    /// Takes a value of a type with no data.
    fn zero_sized_arg(&self, zero: ());

    /// The sum of `a` and `b`.
    fn simple_add(&self, a: u32, b: u32) -> (r: u32)
        requires
            a + b <= u32::MAX,
        ensures
            r == a + b,
    ;

    /// The sum of two one-tuples.
    fn tuple_add1(&self, a: (u32,), b: (u32,)) -> (r: (u32,))
        requires
            a.0 + b.0 <= u32::MAX,
        ensures
            r.0 == a.0 + b.0,
    ;

    /// The elementwise sum of two pairs.
    fn tuple_add2(&self, a: (u32, u32), b: (u32, u32)) -> (r: (u32, u32))
        requires
            a.0 + b.0 <= u32::MAX,
            a.1 + b.1 <= u32::MAX,
        ensures
            r.0 == a.0 + b.0,
            r.1 == a.1 + b.1,
    ;

    /// The elementwise sum of two triples.
    fn tuple_add3(&self, a: (u32, u32, u32), b: (u32, u32, u32)) -> (r: (u32, u32, u32))
        requires
            a.0 + b.0 <= u32::MAX,
            a.1 + b.1 <= u32::MAX,
            a.2 + b.2 <= u32::MAX,
        ensures
            r.0 == a.0 + b.0,
            r.1 == a.1 + b.1,
            r.2 == a.2 + b.2,
    ;

    /// The box it is given.
    fn boxes(&self, a: Box<u32>) -> (r: Box<u32>)
        ensures
            *r == *a,
    ;

    /// A greeting.
    fn test_default_impl(&self) -> (r: String)
        ensures
            r@ == "hello"@,
    {
        String::from_str("hello")
    }

    /// A fixed text.
    fn get_static_str(&self) -> (r: &'static str)
        ensures
            r@ == "hello world"@,
    ;
}

/// An implementation of [`TestInterface`].
#[derive(Default)]
pub struct TestInterfaceImpl {}

impl TestInterface for TestInterfaceImpl {
    fn do_nothing(&self) {
    }

    fn arrays_add(&self, a: &[u32], b: &[u32]) -> (r: Vec<u32>) {
        let n = if a.len() <= b.len() {
            a.len()
        } else {
            b.len()
        };
        let mut ret: Vec<u32> = Vec::new();
        let mut i: usize = 0;
        while i < n
            invariant
                i <= n,
                n == pair_count(a@.len(), b@.len()),
                sums_fit(a@, b@),
                ret@ == pairwise_sums(a@, b@).take(i as int),
            decreases n - i,
        {
            ret.push(a[i] + b[i]);
            assert(ret@ =~= pairwise_sums(a@, b@).take(i + 1));
            i = i + 1;
        }
        assert(pairwise_sums(a@, b@).take(i as int) =~= pairwise_sums(a@, b@));
        ret
    }

    fn string_arrays_add(&self, a: &[String], b: &[String]) -> (r: Vec<String>) {
        let ghost av = a@.map_values(|s: String| s@);
        let ghost bv = b@.map_values(|s: String| s@);
        let n = if a.len() <= b.len() {
            a.len()
        } else {
            b.len()
        };
        let mut ret: Vec<String> = Vec::new();
        let mut i: usize = 0;
        while i < n
            invariant
                i <= n,
                n == pair_count(a@.len(), b@.len()),
                av == a@.map_values(|s: String| s@),
                bv == b@.map_values(|s: String| s@),
                ret@.map_values(|s: String| s@) == pairwise_joins(av, bv).take(i as int),
            decreases n - i,
        {
            let mut joined = a[i].clone();
            joined.append(b[i].as_str());
            let ghost before = ret@.map_values(|s: String| s@);
            ret.push(joined);
            assert(ret@.map_values(|s: String| s@) =~= before.push(joined@));
            assert(pairwise_joins(av, bv).take(i + 1) =~= pairwise_joins(av, bv).take(i as int).push(
                av[i as int] + bv[i as int],
            ));
            i = i + 1;
        }
        assert(pairwise_joins(av, bv).take(i as int) =~= pairwise_joins(av, bv));
        ret
    }

    fn deref_u32(&self, x: &u32) -> (r: u32) {
        *x
    }

    fn count_chars(&self, x: &String) -> (r: usize) {
        x.as_str().as_bytes().len()
    }

    fn zero_sized_arg(&self, zero: ()) {
    }

    fn simple_add(&self, a: u32, b: u32) -> (r: u32) {
        a + b
    }

    fn tuple_add1(&self, a: (u32,), b: (u32,)) -> (r: (u32,)) {
        (a.0 + b.0,)
    }

    fn tuple_add2(&self, a: (u32, u32), b: (u32, u32)) -> (r: (u32, u32)) {
        (a.0 + b.0, a.1 + b.1)
    }

    fn tuple_add3(&self, a: (u32, u32, u32), b: (u32, u32, u32)) -> (r: (u32, u32, u32)) {
        (a.0 + b.0, a.1 + b.1, a.2 + b.2)
    }

    fn boxes(&self, a: Box<u32>) -> (r: Box<u32>) {
        a
    }

    fn get_static_str(&self) -> (r: &'static str) {
        "hello world"
    }
}

/// The message of the method that always panics.
pub open spec fn asked_to_panic() -> Seq<char> {
    "TestInterface was asked to panic"@
}

/// The outcome of returning the pairwise sums of two lists of numbers.
pub open spec fn arrays_add_outcome(version: u32, a: Seq<u32>, b: Seq<u32>) -> CallOutcome {
    if sums_fit(a, b) {
        returned::<Vec<u32>>(version, pairwise_sums(a, b))
    } else {
        panicked(overflow_message())
    }
}

/// The outcome of a call of `arrays_add` with argument bytes `data`.
pub open spec fn arrays_add_call(v: u32, data: Seq<u8>) -> CallOutcome {
    match <(Vec<u32>, Vec<u32>) as Deserialize>::decode(v, data) {
        Some((m, _)) => arrays_add_outcome(v, m.0, m.1),
        None => refused(unreadable_message()),
    }
}

/// The outcome of a call of `string_arrays_add` with argument bytes `data`.
pub open spec fn string_arrays_add_call(v: u32, data: Seq<u8>) -> CallOutcome {
    match <(Vec<String>, Vec<String>) as Deserialize>::decode(v, data) {
        Some((m, _)) => returned::<Vec<String>>(v, pairwise_joins(m.0, m.1)),
        None => refused(unreadable_message()),
    }
}

/// The outcome of a call of one of the tuple-adding methods (`k` elements).
pub open spec fn tuple_add_call(v: u32, k: nat, data: Seq<u8>) -> CallOutcome {
    if k == 1 {
        match <((u32,), (u32,)) as Deserialize>::decode(v, data) {
            Some((m, _)) => if m.0.0 + m.1.0 <= u32::MAX {
                returned::<(u32,)>(v, ((m.0.0 + m.1.0) as u32,))
            } else {
                panicked(overflow_message())
            },
            None => refused(unreadable_message()),
        }
    } else if k == 2 {
        match <((u32, u32), (u32, u32)) as Deserialize>::decode(v, data) {
            Some((m, _)) => if m.0.0 + m.1.0 <= u32::MAX && m.0.1 + m.1.1 <= u32::MAX {
                returned::<(u32, u32)>(v, ((m.0.0 + m.1.0) as u32, (m.0.1 + m.1.1) as u32))
            } else {
                panicked(overflow_message())
            },
            None => refused(unreadable_message()),
        }
    } else {
        match <((u32, u32, u32), (u32, u32, u32)) as Deserialize>::decode(v, data) {
            Some((m, _)) => if m.0.0 + m.1.0 <= u32::MAX && m.0.1 + m.1.1 <= u32::MAX && m.0.2 + m.1.2
                <= u32::MAX {
                returned::<(u32, u32, u32)>(
                    v,
                    ((m.0.0 + m.1.0) as u32, (m.0.1 + m.1.1) as u32, (m.0.2 + m.1.2) as u32),
                )
            } else {
                panicked(overflow_message())
            },
            None => refused(unreadable_message()),
        }
    }
}

/// The method list of [`TestInterface`], in its order at the implementation.
pub open spec fn test_interface_methods(v: u32) -> Seq<MethodModel> {
    let u = <u32 as WithSchema>::schema_nodes(v);
    let unit = <() as WithSchema>::schema_nodes(v);
    let text = <String as WithSchema>::schema_nodes(v);
    seq![
        method_model("do_nothing"@, Seq::empty(), unit),
        method_model(
            "arrays_add"@,
            seq![<Vec<u32> as WithSchema>::schema_nodes(v), <Vec<u32> as WithSchema>::schema_nodes(v)],
            <Vec<u32> as WithSchema>::schema_nodes(v),
        ),
        method_model(
            "string_arrays_add"@,
            seq![<Vec<String> as WithSchema>::schema_nodes(v), <Vec<String> as WithSchema>::schema_nodes(v)],
            <Vec<String> as WithSchema>::schema_nodes(v),
        ),
        method_model("deref_u32"@, seq![u], u),
        method_model("count_chars"@, seq![text], <usize as WithSchema>::schema_nodes(v)),
        method_model("zero_sized_arg"@, seq![unit], unit),
        method_model("simple_add"@, seq![u, u], u),
        method_model(
            "tuple_add1"@,
            seq![<(u32,) as WithSchema>::schema_nodes(v), <(u32,) as WithSchema>::schema_nodes(v)],
            <(u32,) as WithSchema>::schema_nodes(v),
        ),
        method_model(
            "tuple_add2"@,
            seq![<(u32, u32) as WithSchema>::schema_nodes(v), <(u32, u32) as WithSchema>::schema_nodes(v)],
            <(u32, u32) as WithSchema>::schema_nodes(v),
        ),
        method_model(
            "tuple_add3"@,
            seq![
                <(u32, u32, u32) as WithSchema>::schema_nodes(v),
                <(u32, u32, u32) as WithSchema>::schema_nodes(v),
            ],
            <(u32, u32, u32) as WithSchema>::schema_nodes(v),
        ),
        method_model("boxes"@, seq![u], u),
        method_model("test_default_impl"@, Seq::empty(), text),
        method_model("get_static_str"@, Seq::empty(), text),
        method_model("do_panic"@, Seq::empty(), unit),
    ]
}

fn push_method(methods: &mut Vec<AbiMethod>, m: AbiMethod)
    ensures
        final(methods).model() == old(methods).model().push(m.model()),
{
    let ghost mm = m.model();
    methods.push(m);
    assert(methods.model() =~= old(methods).model().push(mm));
}

impl AbiExportable for TestInterfaceImpl {
    /// In every data version, the methods in [`test_interface_methods`].
    open spec fn definition(version: u32) -> <AbiTraitDefinition as Model>::M {
        ("TestInterface"@, test_interface_methods(version))
    }

    open spec fn latest_version() -> u32 {
        0
    }

    open spec fn outcome(
        &self,
        method_number: u16,
        effective_version: u32,
        compatibility_mask: u64,
        data: Seq<u8>,
    ) -> CallOutcome {
        let v = effective_version;
        let bad = refused(unreadable_message());
        if method_number == 0 {
            returned::<()>(v, ())
        } else if method_number == 1 {
            arrays_add_call(v, data)
        } else if method_number == 2 {
            string_arrays_add_call(v, data)
        } else if method_number == 3 {
            match <u32 as Deserialize>::decode(v, data) {
                Some((m, _)) => returned::<u32>(v, m),
                None => bad,
            }
        } else if method_number == 4 {
            match <String as Deserialize>::decode(v, data) {
                Some((m, _)) => returned::<usize>(v, encode_utf8(m).len() as usize),
                None => bad,
            }
        } else if method_number == 5 {
            returned::<()>(v, ())
        } else if method_number == 6 {
            match <(u32, u32) as Deserialize>::decode(v, data) {
                Some((m, _)) => if m.0 + m.1 <= u32::MAX {
                    returned::<u32>(v, (m.0 + m.1) as u32)
                } else {
                    panicked(overflow_message())
                },
                None => bad,
            }
        } else if method_number == 7 {
            tuple_add_call(v, 1, data)
        } else if method_number == 8 {
            tuple_add_call(v, 2, data)
        } else if method_number == 9 {
            tuple_add_call(v, 3, data)
        } else if method_number == 10 {
            match <u32 as Deserialize>::decode(v, data) {
                Some((m, _)) => returned::<u32>(v, m),
                None => bad,
            }
        } else if method_number == 11 {
            returned::<String>(v, "hello"@)
        } else if method_number == 12 {
            returned::<String>(v, "hello world"@)
        } else if method_number == 13 {
            panicked(asked_to_panic())
        } else {
            refused(unknown_method_message())
        }
    }

    fn get_definition(version: u32) -> (r: AbiTraitDefinition) {
        let v = version;
        let mut methods: Vec<AbiMethod> = Vec::new();
        assert(methods.model() =~= Seq::<MethodModel>::empty());
        push_method(&mut methods, make_method("do_nothing", no_args(), get_schema::<()>(v)));
        push_method(
            &mut methods,
            make_method(
                "arrays_add",
                two_args(arg::<Vec<u32>>(v), arg::<Vec<u32>>(v)),
                get_schema::<Vec<u32>>(v),
            ),
        );
        push_method(
            &mut methods,
            make_method(
                "string_arrays_add",
                two_args(arg::<Vec<String>>(v), arg::<Vec<String>>(v)),
                get_schema::<Vec<String>>(v),
            ),
        );
        push_method(&mut methods, make_method("deref_u32", one_arg(arg::<u32>(v)), get_schema::<u32>(v)));
        push_method(
            &mut methods,
            make_method("count_chars", one_arg(arg::<String>(v)), get_schema::<usize>(v)),
        );
        push_method(&mut methods, make_method("zero_sized_arg", one_arg(arg::<()>(v)), get_schema::<()>(v)));
        push_method(
            &mut methods,
            make_method("simple_add", two_args(arg::<u32>(v), arg::<u32>(v)), get_schema::<u32>(v)),
        );
        push_method(
            &mut methods,
            make_method(
                "tuple_add1",
                two_args(arg::<(u32,)>(v), arg::<(u32,)>(v)),
                get_schema::<(u32,)>(v),
            ),
        );
        push_method(
            &mut methods,
            make_method(
                "tuple_add2",
                two_args(arg::<(u32, u32)>(v), arg::<(u32, u32)>(v)),
                get_schema::<(u32, u32)>(v),
            ),
        );
        push_method(
            &mut methods,
            make_method(
                "tuple_add3",
                two_args(arg::<(u32, u32, u32)>(v), arg::<(u32, u32, u32)>(v)),
                get_schema::<(u32, u32, u32)>(v),
            ),
        );
        push_method(&mut methods, make_method("boxes", one_arg(arg::<u32>(v)), get_schema::<u32>(v)));
        push_method(&mut methods, make_method("test_default_impl", no_args(), get_schema::<String>(v)));
        push_method(&mut methods, make_method("get_static_str", no_args(), get_schema::<String>(v)));
        push_method(&mut methods, make_method("do_panic", no_args(), get_schema::<()>(v)));
        let r = AbiTraitDefinition { name: String::from_str("TestInterface"), methods };
        assert(r.model() =~= Self::definition(version));
        r
    }

    fn get_latest_version() -> (r: u32) {
        0
    }

    fn call(&self, method_number: u16, effective_version: u32, compatibility_mask: u64, data: &[u8]) -> (r:
        RawAbiCallResult) {
        let v = effective_version;
        if method_number == 0 {
            self.do_nothing();
            return_value(v, &())
        } else if method_number == 1 {
            self.run_arrays_add(v, data)
        } else if method_number == 2 {
            self.run_string_arrays_add(v, data)
        } else if method_number == 3 {
            match read_args::<u32>(v, data) {
                Ok(x) => return_value(v, &self.deref_u32(&x)),
                Err(_) => refusal("the arguments of the call could not be read"),
            }
        } else if method_number == 4 {
            match read_args::<String>(v, data) {
                Ok(x) => return_value(v, &self.count_chars(&x)),
                Err(_) => refusal("the arguments of the call could not be read"),
            }
        } else if method_number == 5 {
            self.zero_sized_arg(());
            return_value(v, &())
        } else if method_number == 6 {
            match read_args::<(u32, u32)>(v, data) {
                Ok((a, b)) => if a as u64 + b as u64 > u32::MAX as u64 {
                    panic_outcome("attempt to add with overflow")
                } else {
                    return_value(v, &self.simple_add(a, b))
                },
                Err(_) => refusal("the arguments of the call could not be read"),
            }
        } else if method_number == 7 {
            self.run_tuple_add1(v, data)
        } else if method_number == 8 {
            self.run_tuple_add2(v, data)
        } else if method_number == 9 {
            self.run_tuple_add3(v, data)
        } else if method_number == 10 {
            match read_args::<Box<u32>>(v, data) {
                Ok(x) => return_value(v, &self.boxes(x)),
                Err(_) => refusal("the arguments of the call could not be read"),
            }
        } else if method_number == 11 {
            let s = self.test_default_impl();
            let n = s.as_str().as_bytes().len();
            assert(encode_utf8(s@).len() == n);
            return_value(v, &s)
        } else if method_number == 12 {
            let s = self.get_static_str().to_owned();
            let n = s.as_str().as_bytes().len();
            assert(encode_utf8(s@).len() == n);
            return_value(v, &s)
        } else if method_number == 13 {
            panic_outcome("TestInterface was asked to panic")
        } else {
            refusal("the implementation has no method with this number")
        }
    }
}

impl TestInterfaceImpl {
    #[verifier::loop_isolation(false)]
    fn run_arrays_add(&self, v: u32, data: &[u8]) -> (r: RawAbiCallResult)
        ensures
            r.model() == arrays_add_call(v, data@),
    {
        match read_args::<(Vec<u32>, Vec<u32>)>(v, data) {
            Ok((a, b)) => {
                let ghost am = a.model();
                let ghost bm = b.model();
                assert(am =~= a@);
                assert(bm =~= b@);
                let n = if a.len() <= b.len() {
                    a.len()
                } else {
                    b.len()
                };
                let mut i: usize = 0;
                while i < n
                    invariant
                        i <= n,
                        n == pair_count(a@.len(), b@.len()),
                        forall|j: int| 0 <= j < i ==> a@[j] + b@[j] <= u32::MAX,
                    decreases n - i,
                {
                    if a[i] as u64 + b[i] as u64 > u32::MAX as u64 {
                        return panic_outcome("attempt to add with overflow");
                    }
                    i = i + 1;
                }
                let sums = self.arrays_add(a.as_slice(), b.as_slice());
                assert(sums.model() =~= sums@);
                return_value(v, &sums)
            },
            Err(_) => refusal("the arguments of the call could not be read"),
        }
    }

    fn run_string_arrays_add(&self, v: u32, data: &[u8]) -> (r: RawAbiCallResult)
        ensures
            r.model() == string_arrays_add_call(v, data@),
    {
        match read_args::<(Vec<String>, Vec<String>)>(v, data) {
            Ok((a, b)) => {
                let joined = self.string_arrays_add(a.as_slice(), b.as_slice());
                let mut k: usize = 0;
                while k < joined.len()
                    invariant
                        k <= joined.len(),
                        forall|j: int|
                            0 <= j < k ==> <String as Serialize>::valid(v, #[trigger] joined@[j]@),
                    decreases joined.len() - k,
                {
                    let n = joined[k].as_str().as_bytes().len();
                    assert(encode_utf8(joined@[k as int]@).len() == n);
                    k = k + 1;
                }
                assert(a.model() =~= a@.map_values(|s: String| s@));
                assert(b.model() =~= b@.map_values(|s: String| s@));
                assert(joined.model() =~= joined@.map_values(|s: String| s@));
                return_value(v, &joined)
            },
            Err(_) => refusal("the arguments of the call could not be read"),
        }
    }

    fn run_tuple_add1(&self, v: u32, data: &[u8]) -> (r: RawAbiCallResult)
        ensures
            r.model() == tuple_add_call(v, 1, data@),
    {
        match read_args::<((u32,), (u32,))>(v, data) {
            Ok((a, b)) => if a.0 as u64 + b.0 as u64 > u32::MAX as u64 {
                panic_outcome("attempt to add with overflow")
            } else {
                return_value(v, &self.tuple_add1(a, b))
            },
            Err(_) => refusal("the arguments of the call could not be read"),
        }
    }

    fn run_tuple_add2(&self, v: u32, data: &[u8]) -> (r: RawAbiCallResult)
        ensures
            r.model() == tuple_add_call(v, 2, data@),
    {
        match read_args::<((u32, u32), (u32, u32))>(v, data) {
            Ok((a, b)) => if a.0 as u64 + b.0 as u64 > u32::MAX as u64 || a.1 as u64 + b.1 as u64
                > u32::MAX as u64 {
                panic_outcome("attempt to add with overflow")
            } else {
                return_value(v, &self.tuple_add2(a, b))
            },
            Err(_) => refusal("the arguments of the call could not be read"),
        }
    }

    fn run_tuple_add3(&self, v: u32, data: &[u8]) -> (r: RawAbiCallResult)
        ensures
            r.model() == tuple_add_call(v, 3, data@),
    {
        match read_args::<((u32, u32, u32), (u32, u32, u32))>(v, data) {
            Ok((a, b)) => if a.0 as u64 + b.0 as u64 > u32::MAX as u64 || a.1 as u64 + b.1 as u64
                > u32::MAX as u64 || a.2 as u64 + b.2 as u64 > u32::MAX as u64 {
                panic_outcome("attempt to add with overflow")
            } else {
                return_value(v, &self.tuple_add3(a, b))
            },
            Err(_) => refusal("the arguments of the call could not be read"),
        }
    }
}

} // verus!
