use std::cell::Cell;
use std::cmp::Ordering;
use std::rc::Rc;

use emlite::callback::{decode_args, finish_call, invoke_pack, shim};
use emlite::env::{
    emlite_print_object_map, emlite_reset_object_map, emlite_val_equals, emlite_val_get_value_bool,
    emlite_val_gte, emlite_val_lte, emlite_val_typeof_unified,
};
use emlite::from_val::{owned_result_from_error_test, result_from_error_test};
use emlite::script::u32_to_decimal;
use emlite::utf16::str_to_utf16;
use emlite::val::new_error;
use emlite::{
    emlite_env_dyncall_apply, emlite_register_callback, emlite_register_callback_unified,
    emlite_target, init, Callback,
    CallbackLog, CallbackRegistry, Console, EmlitePredefHandles, Env, FromJsError, FromVal, Handle,
    Host, IntoVal, Trampoline, TrampolineLog, Val,
};

/// What a slot of the test host's value table holds.
#[derive(Clone, Debug, PartialEq)]
enum Js {
    Null,
    Undefined,
    Bool(bool),
    Num(f64),
    Big(i128),
    Str(Vec<u16>),
    Array(Vec<Handle>),
    Object(Vec<(String, Handle)>),
    Error(String),
    Func { fidx: Handle, data: Handle },
    Global,
    ConsoleObj,
    ErrorCtor,
    FunctionCtor,
    Eval,
}

const ERROR_CTOR: Handle = 6;
const FUNCTION_CTOR: Handle = 7;
const EVAL: Handle = 8;
const FIRST_FREE: Handle = 9;

/// A small host value store: a table of values with reference counts, which
/// also writes down every call it gets.
struct TableHost {
    slots: Vec<Option<(Js, u32)>>,
    calls: Vec<String>,
    console: Vec<String>,
    evaluated: Vec<String>,
    thrown: Vec<Handle>,
}

impl TableHost {
    fn new() -> Self {
        let mut host = TableHost {
            slots: Vec::new(),
            calls: Vec::new(),
            console: Vec::new(),
            evaluated: Vec::new(),
            thrown: Vec::new(),
        };
        host.reset();
        host
    }

    fn reset(&mut self) {
        self.slots = vec![
            Some((Js::Null, 1)),
            Some((Js::Undefined, 1)),
            Some((Js::Bool(false), 1)),
            Some((Js::Bool(true), 1)),
            Some((Js::Global, 1)),
            Some((Js::ConsoleObj, 1)),
            Some((Js::ErrorCtor, 1)),
            Some((Js::FunctionCtor, 1)),
            Some((Js::Eval, 1)),
        ];
    }

    fn store(&mut self, value: Js) -> Handle {
        self.slots.push(Some((value, 1)));
        (self.slots.len() - 1) as Handle
    }

    fn value(&self, h: Handle) -> Js {
        match self.slots.get(h as usize) {
            Some(Some((v, _))) => v.clone(),
            _ => Js::Undefined,
        }
    }

    fn refs(&self, h: Handle) -> u32 {
        match self.slots.get(h as usize) {
            Some(Some((_, n))) => *n,
            _ => 0,
        }
    }

    fn is_live(&self, h: Handle) -> bool {
        matches!(self.slots.get(h as usize), Some(Some(_)))
    }

    fn retain(&mut self, h: Handle) {
        if h >= FIRST_FREE {
            if let Some(Some((_, n))) = self.slots.get_mut(h as usize) {
                *n += 1;
            }
        }
    }

    fn release(&mut self, h: Handle) {
        if h >= FIRST_FREE {
            let mut free = false;
            if let Some(Some((_, n))) = self.slots.get_mut(h as usize) {
                *n -= 1;
                free = *n == 0;
            }
            if free {
                self.slots[h as usize] = None;
            }
        }
    }

    fn text(&self, h: Handle) -> String {
        match self.value(h) {
            Js::Null => "null".to_string(),
            Js::Undefined => "undefined".to_string(),
            Js::Bool(b) => format!("{}", b),
            Js::Num(n) => format!("{}", n),
            Js::Big(n) => format!("{}", n),
            Js::Str(units) => String::from_utf16_lossy(&units),
            Js::Error(m) => format!("Error: {}", m),
            _ => "[object]".to_string(),
        }
    }

    fn number(&self, h: Handle) -> f64 {
        match self.value(h) {
            Js::Num(n) => n,
            Js::Big(n) => n as f64,
            Js::Bool(true) => 1.0,
            _ => 0.0,
        }
    }

    fn integer(&self, h: Handle) -> i128 {
        match self.value(h) {
            Js::Num(n) => n as i128,
            Js::Big(n) => n,
            Js::Bool(true) => 1,
            _ => 0,
        }
    }

    fn elements(&self, h: Handle) -> Vec<Handle> {
        match self.value(h) {
            Js::Array(items) => items,
            _ => Vec::new(),
        }
    }

    fn function(&self, h: Handle) -> (Handle, Handle) {
        match self.value(h) {
            Js::Func { fidx, data } => (fidx, data),
            _ => panic!("no function at handle {}", h),
        }
    }

    fn calls_from(&self, start: usize) -> Vec<String> {
        self.calls[start..].to_vec()
    }
}

impl Host for TableHost {
    fn init_handle_table(&mut self) {
        self.calls.push("init".to_string());
        self.reset();
    }

    fn val_new_array(&mut self) -> Handle {
        let r = self.store(Js::Array(Vec::new()));
        self.calls.push(format!("new_array={}", r));
        r
    }

    fn val_new_object(&mut self) -> Handle {
        let r = self.store(Js::Object(Vec::new()));
        self.calls.push(format!("new_object={}", r));
        r
    }

    fn val_make_bool(&mut self, value: bool) -> Handle {
        let r = self.store(Js::Bool(value));
        self.calls.push(format!("make_bool({})={}", value, r));
        r
    }

    fn val_make_int(&mut self, value: i32) -> Handle {
        let r = self.store(Js::Num(value as f64));
        self.calls.push(format!("make_int({})={}", value, r));
        r
    }

    fn val_make_uint(&mut self, value: u32) -> Handle {
        let r = self.store(Js::Num(value as f64));
        self.calls.push(format!("make_uint({})={}", value, r));
        r
    }

    fn val_make_bigint(&mut self, value: i64) -> Handle {
        let r = self.store(Js::Big(value as i128));
        self.calls.push(format!("make_bigint({})={}", value, r));
        r
    }

    fn val_make_biguint(&mut self, value: u64) -> Handle {
        let r = self.store(Js::Big(value as i128));
        self.calls.push(format!("make_biguint({})={}", value, r));
        r
    }

    fn val_make_str(&mut self, value: &str) -> Handle {
        let r = self.store(Js::Str(value.encode_utf16().collect()));
        self.calls.push(format!("make_str({})={}", value, r));
        r
    }

    fn val_make_str_utf16(&mut self, value: &[u16]) -> Handle {
        let r = self.store(Js::Str(value.to_vec()));
        self.calls.push(format!("make_str_utf16({:?})={}", value, r));
        r
    }

    fn val_get_value_bool(&mut self, h: Handle) -> bool {
        self.calls.push(format!("get_value_bool({})", h));
        !self.val_not_quiet(h)
    }

    fn val_get_value_int(&mut self, h: Handle) -> i32 {
        self.calls.push(format!("get_value_int({})", h));
        self.integer(h) as i32
    }

    fn val_get_value_uint(&mut self, h: Handle) -> u32 {
        self.calls.push(format!("get_value_uint({})", h));
        self.integer(h) as u32
    }

    fn val_get_value_bigint(&mut self, h: Handle) -> i64 {
        self.calls.push(format!("get_value_bigint({})", h));
        self.integer(h) as i64
    }

    fn val_get_value_biguint(&mut self, h: Handle) -> u64 {
        self.calls.push(format!("get_value_biguint({})", h));
        self.integer(h) as u64
    }

    fn val_get_value_string(&mut self, h: Handle) -> Option<String> {
        self.calls.push(format!("get_value_string({})", h));
        match self.value(h) {
            Js::Null | Js::Undefined => None,
            _ => Some(self.text(h)),
        }
    }

    fn val_get_value_string_utf16(&mut self, h: Handle) -> Option<Vec<u16>> {
        self.calls.push(format!("get_value_string_utf16({})", h));
        match self.value(h) {
            Js::Null | Js::Undefined => None,
            Js::Str(units) => Some(units),
            _ => Some(self.text(h).encode_utf16().collect()),
        }
    }

    fn val_typeof(&mut self, h: Handle) -> Option<String> {
        self.calls.push(format!("typeof({})", h));
        let name = match self.value(h) {
            Js::Undefined => return None,
            Js::Bool(_) => "boolean",
            Js::Num(_) => "number",
            Js::Big(_) => "bigint",
            Js::Str(_) => "string",
            Js::Func { .. } | Js::ErrorCtor | Js::FunctionCtor | Js::Eval => "function",
            _ => "object",
        };
        Some(name.to_string())
    }

    fn val_push(&mut self, arr: Handle, v: Handle) {
        self.calls.push(format!("push({},{})", arr, v));
        self.retain(v);
        if let Some(Some((Js::Array(items), _))) = self.slots.get_mut(arr as usize) {
            items.push(v);
        }
    }

    fn val_get(&mut self, obj: Handle, key: Handle) -> Handle {
        let name = self.text(key);
        let found = match self.value(obj) {
            Js::Global => match name.as_str() {
                "Error" => Some(ERROR_CTOR),
                "Function" => Some(FUNCTION_CTOR),
                "eval" => Some(EVAL),
                _ => None,
            },
            Js::Array(items) => {
                if name == "length" {
                    Some(self.store(Js::Num(items.len() as f64)))
                } else {
                    let i = self.integer(key);
                    if i >= 0 && (i as usize) < items.len() {
                        let h = items[i as usize];
                        self.retain(h);
                        Some(h)
                    } else {
                        None
                    }
                }
            }
            Js::Object(props) => match props.iter().find(|(k, _)| *k == name) {
                Some((_, h)) => {
                    let h = *h;
                    self.retain(h);
                    Some(h)
                }
                None => None,
            },
            Js::Str(units) => {
                if name == "length" {
                    Some(self.store(Js::Num(units.len() as f64)))
                } else {
                    None
                }
            }
            _ => None,
        };
        let r = found.unwrap_or(1);
        self.calls.push(format!("get({},{})={}", obj, key, r));
        r
    }

    fn val_set(&mut self, obj: Handle, key: Handle, v: Handle) {
        self.calls.push(format!("set({},{},{})", obj, key, v));
        let name = self.text(key);
        self.retain(v);
        if let Some(Some((Js::Object(props), _))) = self.slots.get_mut(obj as usize) {
            props.retain(|(k, _)| *k != name);
            props.push((name, v));
        }
    }

    fn val_has(&mut self, obj: Handle, key: Handle) -> bool {
        let name = self.text(key);
        let r = match self.value(obj) {
            Js::Object(props) => props.iter().any(|(k, _)| *k == name),
            Js::Array(items) => name == "length" || (self.integer(key) as usize) < items.len(),
            _ => false,
        };
        self.calls.push(format!("has({},{})={}", obj, key, r));
        r
    }

    fn val_not(&mut self, h: Handle) -> bool {
        let r = self.val_not_quiet(h);
        self.calls.push(format!("not({})={}", h, r));
        r
    }

    fn val_is_string(&mut self, h: Handle) -> bool {
        let r = matches!(self.value(h), Js::Str(_));
        self.calls.push(format!("is_string({})={}", h, r));
        r
    }

    fn val_is_number(&mut self, h: Handle) -> bool {
        let r = matches!(self.value(h), Js::Num(_) | Js::Big(_));
        self.calls.push(format!("is_number({})={}", h, r));
        r
    }

    fn val_is_bool(&mut self, h: Handle) -> bool {
        let r = matches!(self.value(h), Js::Bool(_));
        self.calls.push(format!("is_bool({})={}", h, r));
        r
    }

    fn val_gt(&mut self, a: Handle, b: Handle) -> bool {
        let r = self.ordered(a, b) == Some(Ordering::Greater);
        self.calls.push(format!("gt({},{})={}", a, b, r));
        r
    }

    fn val_gte(&mut self, a: Handle, b: Handle) -> bool {
        let r = matches!(self.ordered(a, b), Some(Ordering::Greater) | Some(Ordering::Equal));
        self.calls.push(format!("gte({},{})={}", a, b, r));
        r
    }

    fn val_lt(&mut self, a: Handle, b: Handle) -> bool {
        let r = self.ordered(a, b) == Some(Ordering::Less);
        self.calls.push(format!("lt({},{})={}", a, b, r));
        r
    }

    fn val_lte(&mut self, a: Handle, b: Handle) -> bool {
        let r = matches!(self.ordered(a, b), Some(Ordering::Less) | Some(Ordering::Equal));
        self.calls.push(format!("lte({},{})={}", a, b, r));
        r
    }

    fn val_equals(&mut self, a: Handle, b: Handle) -> bool {
        let r = self.same(a, b) || self.ordered(a, b) == Some(Ordering::Equal);
        self.calls.push(format!("equals({},{})={}", a, b, r));
        r
    }

    fn val_strictly_equals(&mut self, a: Handle, b: Handle) -> bool {
        let r = self.same(a, b);
        self.calls.push(format!("strictly_equals({},{})={}", a, b, r));
        r
    }

    fn val_instanceof(&mut self, a: Handle, b: Handle) -> bool {
        let r = match (self.value(a), self.value(b)) {
            (Js::Error(_), Js::ErrorCtor) => true,
            (Js::Func { .. }, Js::FunctionCtor) => true,
            (Js::Eval, Js::FunctionCtor) => true,
            (Js::ErrorCtor, Js::FunctionCtor) => true,
            (Js::FunctionCtor, Js::FunctionCtor) => true,
            _ => false,
        };
        self.calls.push(format!("instanceof({},{})={}", a, b, r));
        r
    }

    fn val_obj_call(&mut self, obj: Handle, method: &str, argv: Handle) -> Handle {
        let args = self.elements(argv);
        let r = match (self.value(obj), method) {
            (Js::Array(_), "push") => {
                for h in &args {
                    self.retain(*h);
                }
                let mut len = 0;
                if let Some(Some((Js::Array(items), _))) = self.slots.get_mut(obj as usize) {
                    items.extend(args.iter().copied());
                    len = items.len();
                }
                self.store(Js::Num(len as f64))
            }
            (Js::ConsoleObj, _) => {
                let words: Vec<String> = args.iter().map(|h| self.text(*h)).collect();
                self.console.push(format!("{}: {}", method, words.join(" ")));
                1
            }
            _ => 1,
        };
        self.calls.push(format!("obj_call({},{},{})={}", obj, method, argv, r));
        r
    }

    fn val_obj_has_own_prop(&mut self, obj: Handle, prop: &str) -> bool {
        let r = match self.value(obj) {
            Js::Object(props) => props.iter().any(|(k, _)| k == prop),
            _ => false,
        };
        self.calls.push(format!("obj_has_own_prop({},{})={}", obj, prop, r));
        r
    }

    fn val_construct_new(&mut self, ctor: Handle, argv: Handle) -> Handle {
        let args = self.elements(argv);
        let r = match self.value(ctor) {
            Js::ErrorCtor => {
                let message = args.first().map(|h| self.text(*h)).unwrap_or_default();
                self.store(Js::Error(message))
            }
            _ => self.store(Js::Object(Vec::new())),
        };
        self.calls.push(format!("construct_new({},{})={}", ctor, argv, r));
        r
    }

    fn val_func_call(&mut self, func: Handle, argv: Handle) -> Handle {
        let args = self.elements(argv);
        let r = match self.value(func) {
            Js::Eval => {
                let source = args.first().map(|h| self.text(*h)).unwrap_or_default();
                self.evaluated.push(source);
                self.store(Js::Object(Vec::new()))
            }
            _ => 1,
        };
        self.calls.push(format!("func_call({},{})={}", func, argv, r));
        r
    }

    fn val_inc_ref(&mut self, h: Handle) {
        self.calls.push(format!("inc_ref({})", h));
        self.retain(h);
    }

    fn val_dec_ref(&mut self, h: Handle) {
        self.calls.push(format!("dec_ref({})", h));
        self.release(h);
    }

    fn val_throw(&mut self, h: Handle) {
        self.calls.push(format!("throw({})", h));
        self.thrown.push(h);
    }

    fn print_object_map(&mut self) {
        self.calls.push("print_object_map".to_string());
    }

    fn reset_object_map(&mut self) {
        self.calls.push("reset_object_map".to_string());
        self.reset();
    }

    fn val_make_callback(&mut self, fidx: Handle, data: Handle) -> Handle {
        let r = self.store(Js::Func { fidx, data });
        self.calls.push(format!("make_callback({},{})={}", fidx, data, r));
        r
    }
}

impl TableHost {
    fn val_not_quiet(&self, h: Handle) -> bool {
        match self.value(h) {
            Js::Null | Js::Undefined | Js::Bool(false) => true,
            Js::Num(n) => n == 0.0 || n.is_nan(),
            Js::Big(n) => n == 0,
            Js::Str(units) => units.is_empty(),
            _ => false,
        }
    }

    fn same(&self, a: Handle, b: Handle) -> bool {
        match (self.value(a), self.value(b)) {
            (Js::Array(_), Js::Array(_)) | (Js::Object(_), Js::Object(_)) => a == b,
            (Js::Num(x), Js::Num(y)) => x == y,
            (x, y) => x == y,
        }
    }

    fn ordered(&self, a: Handle, b: Handle) -> Option<Ordering> {
        match (self.value(a), self.value(b)) {
            (Js::Num(_) | Js::Big(_), Js::Num(_) | Js::Big(_)) => {
                self.number(a).partial_cmp(&self.number(b))
            }
            (Js::Str(x), Js::Str(y)) => Some(x.cmp(&y)),
            _ => None,
        }
    }
}

fn fresh() -> Env<TableHost> {
    Env::new(TableHost::new())
}

fn words(list: &[&str]) -> Vec<String> {
    list.iter().map(|s| s.to_string()).collect()
}

/// Puts a host `Error` into the table and hands out its handle.
fn host_error(env: &mut Env<TableHost>, message: &str) -> Val {
    new_error(env, message)
}

// ---------------------------------------------------------------------------
// Predefined handles and constants

#[test]
fn predefined_handles_have_their_fixed_values() {
    assert_eq!(EmlitePredefHandles::Null as u32, 0);
    assert_eq!(EmlitePredefHandles::Undefined as u32, 1);
    assert_eq!(EmlitePredefHandles::False as u32, 2);
    assert_eq!(EmlitePredefHandles::True as u32, 3);
    assert_eq!(EmlitePredefHandles::GlobalThis as u32, 4);
    assert_eq!(EmlitePredefHandles::Console as u32, 5);
    assert_eq!(EmlitePredefHandles::Reserved as u32, 6);
    assert_eq!(EmlitePredefHandles::Null.handle(), 0);
    assert_eq!(EmlitePredefHandles::Undefined.handle(), 1);
    assert_eq!(EmlitePredefHandles::False.handle(), 2);
    assert_eq!(EmlitePredefHandles::True.handle(), 3);
    assert_eq!(EmlitePredefHandles::GlobalThis.handle(), 4);
    assert_eq!(EmlitePredefHandles::Console.handle(), 5);
    assert_eq!(EmlitePredefHandles::Reserved.handle(), 6);
}

#[test]
fn target_is_1040() {
    assert_eq!(emlite_target(), 1040);
}

#[test]
fn singleton_values_need_no_host_call() {
    assert_eq!(Val::null().as_handle(), 0);
    assert_eq!(Val::undefined().as_handle(), 1);
    assert_eq!(Val::global_this().as_handle(), 4);
    assert_eq!(Console::get().as_handle(), 5);
    assert!(Val::null().is_null());
    assert!(!Val::null().is_undefined());
    assert!(Val::undefined().is_undefined());
    assert!(!Val::undefined().is_null());
    assert!(!Val::global_this().is_null());
}

#[test]
fn init_asks_the_host_to_set_up_its_table() {
    let mut env = fresh();
    init(&mut env);
    assert_eq!(env.host().calls, words(&["init"]));
    let host = env.into_host();
    assert_eq!(host.calls, words(&["init"]));
    assert_eq!(host.slots.len(), FIRST_FREE as usize);
}

// ---------------------------------------------------------------------------
// The value cell

#[test]
fn clone_then_drop_restores_the_count() {
    let mut env = fresh();
    let v = 7i32.into_val(&mut env);
    let h = v.as_handle();
    assert_eq!(env.host().refs(h), 1);
    let start = env.host().calls.len();
    let c = v.clone(&mut env);
    assert_eq!(c.as_handle(), h);
    assert_eq!(env.host().refs(h), 2);
    c.drop(&mut env);
    assert_eq!(env.host().refs(h), 1);
    assert!(env.host().is_live(h));
    assert_eq!(
        env.host().calls_from(start),
        vec![format!("inc_ref({})", h), format!("dec_ref({})", h)]
    );
    assert_eq!(i32::from_val(&mut env, &v), 7);
    v.drop(&mut env);
    assert!(!env.host().is_live(h));
}

#[test]
fn drop_is_issued_for_singletons_too() {
    let mut env = fresh();
    Val::global_this().drop(&mut env);
    Val::null().drop(&mut env);
    assert_eq!(env.host().calls, words(&["dec_ref(4)", "dec_ref(0)"]));
    assert!(env.host().is_live(4));
    assert!(env.host().is_live(0));
}

#[test]
fn delete_gives_up_the_one_reference_of_the_value() {
    let mut env = fresh();
    let v = Val::object(&mut env);
    let h = v.as_handle();
    let extra = v.clone(&mut env);
    assert_eq!(env.host().refs(h), 2);
    let start = env.host().calls.len();
    Val::delete(v, &mut env);
    assert_eq!(env.host().calls_from(start), vec![format!("dec_ref({})", h)]);
    assert_eq!(env.host().refs(h), 1);
    assert!(env.host().is_live(h));
    Val::delete(extra, &mut env);
    assert!(!env.host().is_live(h));
}

#[test]
fn throw_hands_the_value_to_the_host() {
    let mut env = fresh();
    let e = host_error(&mut env, "boom");
    let h = e.as_handle();
    let start = env.host().calls.len();
    Val::throw(e, &mut env);
    assert_eq!(env.host().calls_from(start), vec![format!("throw({})", h)]);
    assert_eq!(env.host().thrown, vec![h]);
}

#[test]
fn from_converts_like_into_val() {
    let mut env = fresh();
    let n = Val::from(&mut env, 5u32);
    let s = Val::from(&mut env, "five");
    let b = Val::from(&mut env, &n);
    let u = Val::from(&mut env, ());
    let same = Val::from(&mut env, s);
    assert_eq!(b.as_handle(), n.as_handle());
    assert!(u.is_undefined());
    assert_eq!(same.as_handle(), 10);
    assert_eq!(env.host().calls, words(&["make_uint(5)=9", "make_str(five)=10", "inc_ref(9)"]));
}

#[test]
fn object_and_array_take_what_the_host_hands_out() {
    let mut env = fresh();
    let o = Val::object(&mut env);
    let a = Val::array(&mut env);
    assert_eq!(o.as_handle(), FIRST_FREE);
    assert_eq!(a.as_handle(), FIRST_FREE + 1);
    assert_eq!(env.host().calls, words(&["new_object=9", "new_array=10"]));
}

#[test]
fn global_looks_the_name_up_and_gives_up_its_temporaries() {
    let mut env = fresh();
    let g = Val::global(&mut env, "Error");
    assert_eq!(g.as_handle(), ERROR_CTOR);
    assert_eq!(
        env.host().calls,
        words(&["make_str(Error)=9", "get(4,9)=6", "dec_ref(9)", "dec_ref(4)"])
    );
    assert!(!env.host().is_live(9));
}

#[test]
fn set_get_and_has_on_an_object() {
    let mut env = fresh();
    let o = Val::object(&mut env);
    let start = env.host().calls.len();
    o.set(&mut env, "answer", 42i32);
    assert_eq!(
        env.host().calls_from(start),
        words(&[
            "make_str(answer)=10",
            "make_int(42)=11",
            "set(9,10,11)",
            "dec_ref(11)",
            "dec_ref(10)"
        ])
    );
    assert!(o.has(&mut env, "answer"));
    assert!(!o.has(&mut env, "question"));
    assert!(o.has_own_property(&mut env, "answer"));
    assert!(!o.has_own_property(&mut env, "question"));
    let start = env.host().calls.len();
    let got = o.get(&mut env, "answer");
    assert_eq!(got.as_handle(), 11);
    let key = env.host().slots.len() as u32 - 1;
    assert_eq!(
        env.host().calls_from(start),
        vec![
            format!("make_str(answer)={}", key),
            format!("get(9,{})=11", key),
            format!("dec_ref({})", key)
        ]
    );
    assert_eq!(got.as_::<TableHost, i32>(&mut env), 42);
    let missing = o.get(&mut env, "question");
    assert!(missing.is_undefined());
}

#[test]
fn a_value_given_as_key_is_given_up() {
    let mut env = fresh();
    let o = Val::object(&mut env);
    let key = "k".into_val(&mut env);
    let h = key.as_handle();
    let start = env.host().calls.len();
    let got = o.get(&mut env, key);
    assert!(got.is_undefined());
    assert_eq!(
        env.host().calls_from(start),
        vec![format!("get(9,{})=1", h), format!("dec_ref({})", h)]
    );
    assert!(!env.host().is_live(h));
}

#[test]
fn a_borrowed_value_given_as_key_is_cloned_first() {
    let mut env = fresh();
    let o = Val::object(&mut env);
    let key = "k".into_val(&mut env);
    let h = key.as_handle();
    let start = env.host().calls.len();
    let _ = o.has(&mut env, &key);
    assert_eq!(
        env.host().calls_from(start),
        vec![format!("inc_ref({})", h), format!("has(9,{})=false", h), format!("dec_ref({})", h)]
    );
    assert_eq!(env.host().refs(h), 1);
}

#[test]
fn type_of_names_the_type_and_reads_a_missing_name_as_undefined() {
    let mut env = fresh();
    let n = 1i32.into_val(&mut env);
    assert_eq!(n.type_of(&mut env), "number");
    let s = "x".into_val(&mut env);
    assert_eq!(s.type_of(&mut env), "string");
    assert_eq!(Val::undefined().type_of(&mut env), "undefined");
    assert_eq!(Val::null().type_of(&mut env), "object");
    assert_eq!(emlite_val_typeof_unified(&mut env, 3), "boolean");
    assert_eq!(emlite_val_typeof_unified(&mut env, 1), "undefined");
}

#[test]
fn type_predicates_ask_the_host() {
    let mut env = fresh();
    let n = 1i32.into_val(&mut env);
    let s = "x".into_val(&mut env);
    let b = true.into_val(&mut env);
    assert!(n.is_number(&mut env));
    assert!(!n.is_string(&mut env));
    assert!(!n.is_bool(&mut env));
    assert!(s.is_string(&mut env));
    assert!(b.is_bool(&mut env));
}

#[test]
fn is_error_tests_against_the_error_constructor() {
    let mut env = fresh();
    let e = host_error(&mut env, "bad");
    let h = e.as_handle();
    let start = env.host().calls.len();
    assert!(e.is_error(&mut env));
    let key = env.host().slots.len() as u32 - 1;
    assert_eq!(
        env.host().calls_from(start),
        vec![
            format!("make_str(Error)={}", key),
            format!("get(4,{})=6", key),
            format!("dec_ref({})", key),
            "dec_ref(4)".to_string(),
            format!("instanceof({},6)=true", h),
            "dec_ref(6)".to_string(),
        ]
    );
    let n = 5i32.into_val(&mut env);
    assert!(!n.is_error(&mut env));
    assert!(!Val::null().is_error(&mut env));
}

#[test]
fn is_function_tests_against_the_function_constructor() {
    let mut env = fresh();
    let eval = Val::global(&mut env, "eval");
    assert!(eval.is_function(&mut env));
    let n = 5i32.into_val(&mut env);
    assert!(!n.is_function(&mut env));
}

#[test]
fn instanceof_gives_the_constructor_up() {
    let mut env = fresh();
    let e = host_error(&mut env, "bad");
    let ctor = Val::global(&mut env, "Error");
    let start = env.host().calls.len();
    assert!(e.instanceof(&mut env, ctor));
    assert_eq!(
        env.host().calls_from(start),
        vec![format!("instanceof({},6)=true", e.as_handle()), "dec_ref(6)".to_string()]
    );
}

#[test]
fn call_packs_the_arguments_in_order() {
    let mut env = fresh();
    let arr = Val::array(&mut env);
    let a = 1i32.into_val(&mut env);
    let b = 2i32.into_val(&mut env);
    let start = env.host().calls.len();
    let r = arr.call(&mut env, "push", &[a, b]);
    assert_eq!(
        env.host().calls_from(start),
        words(&[
            "new_array=12",
            "push(12,10)",
            "push(12,11)",
            "obj_call(9,push,12)=13",
            "dec_ref(12)"
        ])
    );
    assert_eq!(r.as_::<TableHost, i32>(&mut env), 2);
    assert_eq!(env.host().elements(9), vec![10, 11]);
}

#[test]
fn call_without_arguments_builds_an_empty_array() {
    let mut env = fresh();
    let o = Val::object(&mut env);
    let r = o.call(&mut env, "nothing", &[]);
    assert!(r.is_undefined());
    assert_eq!(
        env.host().calls_from(1),
        words(&["new_array=10", "obj_call(9,nothing,10)=1", "dec_ref(10)"])
    );
}

#[test]
fn new_constructs_through_the_host() {
    let mut env = fresh();
    let ctor = Val::global(&mut env, "Error");
    let msg = "oops".into_val(&mut env);
    let start = env.host().calls.len();
    let e = ctor.new(&mut env, &[msg]);
    assert_eq!(env.host().value(e.as_handle()), Js::Error("oops".to_string()));
    assert_eq!(
        env.host().calls_from(start),
        words(&["new_array=11", "push(11,10)", "construct_new(6,11)=12", "dec_ref(11)"])
    );
}

#[test]
fn invoke_calls_the_function_value() {
    let mut env = fresh();
    let eval = Val::global(&mut env, "eval");
    let src = "1 + 1".into_val(&mut env);
    let start = env.host().calls.len();
    let r = eval.invoke(&mut env, &[src]);
    assert_eq!(env.host().evaluated, words(&["1 + 1"]));
    assert_eq!(
        env.host().calls_from(start),
        words(&["new_array=11", "push(11,10)", "func_call(8,11)=12", "dec_ref(11)"])
    );
    assert_eq!(r.as_handle(), 12);
}

#[test]
fn new_error_builds_an_error_and_gives_up_its_temporaries() {
    let mut env = fresh();
    let e = new_error(&mut env, "Expected string");
    assert_eq!(env.host().value(e.as_handle()), Js::Error("Expected string".to_string()));
    assert_eq!(
        env.host().calls,
        words(&[
            "make_str(Error)=9",
            "get(4,9)=6",
            "dec_ref(9)",
            "dec_ref(4)",
            "make_str(Expected string)=10",
            "new_array=11",
            "push(11,10)",
            "construct_new(6,11)=12",
            "dec_ref(11)",
            "dec_ref(10)",
            "dec_ref(6)"
        ])
    );
    assert_eq!(e.as_handle(), 12);
}

#[test]
fn from_slice_appends_each_item_through_push() {
    let mut env = fresh();
    let arr = Val::from_slice(&mut env, &[10i32, 20, 30]);
    let items = env.host().elements(arr.as_handle());
    assert_eq!(items.len(), 3);
    let values: Vec<f64> = items.iter().map(|h| env.host().number(*h)).collect();
    assert_eq!(values, vec![10.0, 20.0, 30.0]);
    assert_eq!(
        env.host().calls_from(0)[..8].to_vec(),
        words(&[
            "new_array=9",
            "make_int(10)=10",
            "new_array=11",
            "push(11,10)",
            "obj_call(9,push,11)=12",
            "dec_ref(11)",
            "dec_ref(12)",
            "dec_ref(10)"
        ])
    );
    assert_eq!(env.host().calls.len(), 1 + 3 * 7);
}

#[test]
fn from_slice_of_nothing_is_an_empty_array() {
    let mut env = fresh();
    let none: [i32; 0] = [];
    let arr = Val::from_slice(&mut env, &none);
    assert_eq!(env.host().elements(arr.as_handle()), Vec::<Handle>::new());
    assert_eq!(env.host().calls, words(&["new_array=9"]));
}

#[test]
fn to_vec_reads_the_length_and_then_each_element() {
    let mut env = fresh();
    let arr = Val::from_slice(&mut env, &[5i32, 6, 7]);
    let start = env.host().calls.len();
    let v: Vec<i32> = arr.to_vec(&mut env);
    assert_eq!(v, vec![5, 6, 7]);
    let calls = env.host().calls_from(start);
    assert_eq!(calls.len(), 5 + 3 * 5);
    assert!(calls[0].starts_with("make_str(length)="));
    assert!(calls[3].starts_with("get_value_biguint("));
    assert!(calls[5].starts_with("make_int(0)="));
    assert!(calls[10].starts_with("make_int(1)="));
    assert!(calls[15].starts_with("make_int(2)="));
}

#[test]
fn to_vec_of_values_gives_each_element_its_own_reference() {
    let mut env = fresh();
    let arr = Val::from_slice(&mut env, &["a", "b"]);
    let items = env.host().elements(arr.as_handle());
    let before: Vec<u32> = items.iter().map(|h| env.host().refs(*h)).collect();
    let vals: Vec<Val> = arr.to_vec(&mut env);
    assert_eq!(vals.len(), 2);
    assert_eq!(vals[0].as_handle(), items[0]);
    assert_eq!(vals[1].as_handle(), items[1]);
    let after: Vec<u32> = items.iter().map(|h| env.host().refs(*h)).collect();
    assert_eq!(after, vec![before[0] + 1, before[1] + 1]);
}

#[test]
fn to_vec_of_an_empty_array_is_empty() {
    let mut env = fresh();
    let arr = Val::array(&mut env);
    let v: Vec<i32> = arr.to_vec(&mut env);
    assert!(v.is_empty());
}

#[test]
fn strict_equality_is_by_value_not_by_handle() {
    let mut env = fresh();
    let a = 3i32.into_val(&mut env);
    let b = 3i32.into_val(&mut env);
    let c = 4i32.into_val(&mut env);
    assert_ne!(a.as_handle(), b.as_handle());
    assert!(a.eq(&mut env, &b));
    assert!(!a.eq(&mut env, &c));
}

#[test]
fn not_is_the_host_negation() {
    let mut env = fresh();
    let zero = 0i32.into_val(&mut env);
    let one = 1i32.into_val(&mut env);
    assert!(zero.not(&mut env));
    assert!(!one.not(&mut env));
    assert!(Val::null().not(&mut env));
}

#[test]
fn partial_cmp_orders_numbers() {
    let mut env = fresh();
    let a = 1i32.into_val(&mut env);
    let b = 2i32.into_val(&mut env);
    let c = 1i32.into_val(&mut env);
    let start = env.host().calls.len();
    assert_eq!(a.partial_cmp(&mut env, &c), Some(Ordering::Equal));
    assert_eq!(env.host().calls_from(start), words(&["strictly_equals(9,11)=true"]));
    let start = env.host().calls.len();
    assert_eq!(b.partial_cmp(&mut env, &a), Some(Ordering::Greater));
    assert_eq!(
        env.host().calls_from(start),
        words(&["strictly_equals(10,9)=false", "gt(10,9)=true"])
    );
    let start = env.host().calls.len();
    assert_eq!(a.partial_cmp(&mut env, &b), Some(Ordering::Less));
    assert_eq!(
        env.host().calls_from(start),
        words(&["strictly_equals(9,10)=false", "gt(9,10)=false", "lt(9,10)=true"])
    );
}

#[test]
fn partial_cmp_of_incomparable_values_is_unordered() {
    let mut env = fresh();
    let n = 1i32.into_val(&mut env);
    let o = Val::object(&mut env);
    let start = env.host().calls.len();
    assert_eq!(n.partial_cmp(&mut env, &o), None);
    assert_eq!(
        env.host().calls_from(start),
        words(&["strictly_equals(9,10)=false", "gt(9,10)=false", "lt(9,10)=false"])
    );
    assert_eq!(o.partial_cmp(&mut env, &n), None);
}

#[test]
fn comparison_operators_follow_partial_cmp() {
    let mut env = fresh();
    let a = 1i32.into_val(&mut env);
    let b = 2i32.into_val(&mut env);
    let c = 1i32.into_val(&mut env);
    let o = Val::object(&mut env);
    assert!(a.lt(&mut env, &b));
    assert!(!b.lt(&mut env, &a));
    assert!(!a.lt(&mut env, &c));
    assert!(a.le(&mut env, &b));
    assert!(a.le(&mut env, &c));
    assert!(!b.le(&mut env, &a));
    assert!(b.gt(&mut env, &a));
    assert!(!a.gt(&mut env, &b));
    assert!(!a.gt(&mut env, &c));
    assert!(b.ge(&mut env, &a));
    assert!(a.ge(&mut env, &c));
    assert!(!a.ge(&mut env, &b));
    assert!(!a.lt(&mut env, &o));
    assert!(!a.le(&mut env, &o));
    assert!(!a.gt(&mut env, &o));
    assert!(!a.ge(&mut env, &o));
    let start = env.host().calls.len();
    assert!(a.le(&mut env, &c));
    assert_eq!(env.host().calls_from(start), words(&["strictly_equals(9,11)=true"]));
}

#[test]
fn loose_comparisons_reach_the_host() {
    let mut env = fresh();
    let a = 1i32.into_val(&mut env);
    let b = 2i32.into_val(&mut env);
    assert!(emlite_val_lte(&mut env, a.as_handle(), b.as_handle()));
    assert!(!emlite_val_gte(&mut env, a.as_handle(), b.as_handle()));
    assert!(!emlite_val_equals(&mut env, a.as_handle(), b.as_handle()));
    assert!(emlite_val_get_value_bool(&mut env, a.as_handle()));
    emlite_print_object_map(&mut env);
    emlite_reset_object_map(&mut env);
    assert!(!env.host().is_live(a.as_handle()));
}

// ---------------------------------------------------------------------------
// Conversions

#[test]
fn forty_two_round_trips_through_the_host() {
    let mut env = fresh();
    let v = 42i32.into_val(&mut env);
    let h = v.as_handle();
    assert_eq!(env.host().value(h), Js::Num(42.0));
    assert_eq!(i32::from_val(&mut env, &v), 42);
    assert_eq!(v.as_::<TableHost, i32>(&mut env), 42);
    assert_eq!(
        env.host().calls,
        vec!["make_int(42)=9".to_string(), format!("get_value_int({})", h), format!("get_value_int({})", h)]
    );
}

#[test]
fn signed_integers_round_trip_at_their_bounds() {
    let mut env = fresh();
    for x in [i8::MIN, -1, 0, 1, i8::MAX] {
        let v = x.into_val(&mut env);
        assert_eq!(i8::from_val(&mut env, &v), x);
    }
    for x in [i16::MIN, -1, 0, i16::MAX] {
        let v = x.into_val(&mut env);
        assert_eq!(i16::from_val(&mut env, &v), x);
    }
    for x in [i32::MIN, -1, 0, i32::MAX] {
        let v = x.into_val(&mut env);
        assert_eq!(i32::from_val(&mut env, &v), x);
    }
    for x in [i64::MIN, -1, 0, i64::MAX] {
        let v = x.into_val(&mut env);
        assert_eq!(i64::from_val(&mut env, &v), x);
    }
    for x in [isize::MIN, -1, 0, isize::MAX] {
        let v = x.into_val(&mut env);
        assert_eq!(isize::from_val(&mut env, &v), x);
    }
}

#[test]
fn unsigned_integers_round_trip_at_their_bounds() {
    let mut env = fresh();
    for x in [0u8, 1, 200, u8::MAX] {
        let v = x.into_val(&mut env);
        assert_eq!(u8::from_val(&mut env, &v), x);
    }
    for x in [0u16, 1, 40000, u16::MAX] {
        let v = x.into_val(&mut env);
        assert_eq!(u16::from_val(&mut env, &v), x);
    }
    for x in [0u32, 1, 3_000_000_000, u32::MAX] {
        let v = x.into_val(&mut env);
        assert_eq!(u32::from_val(&mut env, &v), x);
    }
    for x in [0u64, 1, u64::MAX] {
        let v = x.into_val(&mut env);
        assert_eq!(u64::from_val(&mut env, &v), x);
    }
    for x in [0usize, 1, usize::MAX] {
        let v = x.into_val(&mut env);
        assert_eq!(usize::from_val(&mut env, &v), x);
    }
}

#[test]
fn each_integer_type_uses_the_entry_point_of_its_width() {
    let mut env = fresh();
    let _ = (-5i8).into_val(&mut env);
    let _ = 5u8.into_val(&mut env);
    let _ = (-5i16).into_val(&mut env);
    let _ = 5u16.into_val(&mut env);
    let _ = 5u32.into_val(&mut env);
    let _ = (-5i64).into_val(&mut env);
    let _ = 5u64.into_val(&mut env);
    let _ = 5usize.into_val(&mut env);
    let _ = (-5isize).into_val(&mut env);
    assert_eq!(
        env.host().calls,
        words(&[
            "make_int(-5)=9",
            "make_int(5)=10",
            "make_int(-5)=11",
            "make_int(5)=12",
            "make_uint(5)=13",
            "make_bigint(-5)=14",
            "make_biguint(5)=15",
            "make_biguint(5)=16",
            "make_bigint(-5)=17"
        ])
    );
    let start = env.host().calls.len();
    let v = Val::take_ownership(&mut env, 13);
    let _ = u8::from_val(&mut env, &v);
    let _ = i16::from_val(&mut env, &v);
    let _ = i64::from_val(&mut env, &v);
    let _ = usize::from_val(&mut env, &v);
    assert_eq!(
        env.host().calls_from(start),
        words(&[
            "get_value_uint(13)",
            "get_value_int(13)",
            "get_value_bigint(13)",
            "get_value_biguint(13)"
        ])
    );
}

#[test]
fn a_number_out_of_range_wraps() {
    let mut env = fresh();
    let v = 300i32.into_val(&mut env);
    assert_eq!(u8::from_val(&mut env, &v), 44);
    assert_eq!(i8::from_val(&mut env, &v), 44);
    let w = (-1i32).into_val(&mut env);
    assert_eq!(u16::from_val(&mut env, &w), u16::MAX);
}

#[test]
fn a_value_that_is_no_number_coerces_without_failing() {
    let mut env = fresh();
    let s = "text".into_val(&mut env);
    assert_eq!(i32::from_val(&mut env, &s), 0);
    assert_eq!(u64::from_val(&mut env, &s), 0);
    let r: Result<i32, Val> = s.as_(&mut env);
    assert!(matches!(r, Ok(0)));
    let o: Option<i32> = s.as_(&mut env);
    assert_eq!(o, None);
}

#[test]
fn integers_take_ownership_and_give_the_reference_up() {
    let mut env = fresh();
    let v = 9i32.into_val(&mut env);
    let h = v.as_handle();
    let start = env.host().calls.len();
    assert_eq!(i32::take_ownership(&mut env, h), 9);
    assert_eq!(
        env.host().calls_from(start),
        vec![format!("get_value_int({})", h), format!("dec_ref({})", h)]
    );
    assert!(!env.host().is_live(h));
    let w = 200u8.into_val(&mut env);
    assert_eq!(u64::take_ownership(&mut env, w.as_handle()), 200);
    assert!(!env.host().is_live(w.as_handle()));
    assert_eq!(9i32.as_handle(), 0);
    assert_eq!(Some(9i32).as_handle(), 0);
}

#[test]
fn optional_integers_are_present_for_numbers_only() {
    let mut env = fresh();
    let n = 12i32.into_val(&mut env);
    let h = n.as_handle();
    let start = env.host().calls.len();
    assert_eq!(Option::<i32>::from_val(&mut env, &n), Some(12));
    assert_eq!(
        env.host().calls_from(start),
        vec![format!("is_number({})=true", h), format!("get_value_int({})", h)]
    );
    let s = "12".into_val(&mut env);
    let start = env.host().calls.len();
    assert_eq!(Option::<i32>::from_val(&mut env, &s), None);
    assert_eq!(
        env.host().calls_from(start),
        vec![format!("is_number({})=false", s.as_handle())]
    );
    assert_eq!(Option::<u64>::from_val(&mut env, &n), Some(12));
}

#[test]
fn optional_integers_take_ownership_and_give_the_reference_up() {
    let mut env = fresh();
    let n = 12i32.into_val(&mut env);
    let h = n.as_handle();
    let start = env.host().calls.len();
    assert_eq!(Option::<u8>::take_ownership(&mut env, h), Some(12));
    assert_eq!(
        env.host().calls_from(start),
        vec![
            format!("is_number({})=true", h),
            format!("get_value_uint({})", h),
            format!("dec_ref({})", h)
        ]
    );
    assert!(!env.host().is_live(h));
    let start = env.host().calls.len();
    assert_eq!(Option::<u8>::take_ownership(&mut env, 0), None);
    assert_eq!(env.host().calls_from(start), words(&["dec_ref(0)"]));
}

#[test]
fn null_and_undefined_are_absent_for_every_type() {
    let mut env = fresh();
    for v in [Val::null(), Val::undefined()] {
        let start = env.host().calls.len();
        assert_eq!(Option::<i8>::from_val(&mut env, &v), None);
        assert_eq!(Option::<i32>::from_val(&mut env, &v), None);
        assert_eq!(Option::<u32>::from_val(&mut env, &v), None);
        assert_eq!(Option::<i64>::from_val(&mut env, &v), None);
        assert_eq!(Option::<u64>::from_val(&mut env, &v), None);
        assert_eq!(Option::<usize>::from_val(&mut env, &v), None);
        assert_eq!(Option::<String>::from_val(&mut env, &v), None);
        assert_eq!(Option::<Vec<u16>>::from_val(&mut env, &v), None);
        assert_eq!(v.to_utf16(&mut env), None);
        assert_eq!(env.host().calls.len(), start);
        assert_eq!(Option::<bool>::from_val(&mut env, &v), None);
    }
}

#[test]
fn booleans_round_trip_and_read_by_truthiness() {
    let mut env = fresh();
    let t = true.into_val(&mut env);
    let f = false.into_val(&mut env);
    assert!(bool::from_val(&mut env, &t));
    assert!(!bool::from_val(&mut env, &f));
    let one = 1i32.into_val(&mut env);
    let empty = "".into_val(&mut env);
    assert!(bool::from_val(&mut env, &one));
    assert!(!bool::from_val(&mut env, &empty));
    assert_eq!(true.as_handle(), 3);
    assert_eq!(false.as_handle(), 2);
    assert_eq!(Some(true).as_handle(), 3);
    assert_eq!(Some(false).as_handle(), 2);
    assert_eq!(None::<bool>.as_handle(), 1);
}

#[test]
fn booleans_take_ownership_and_give_the_reference_up() {
    let mut env = fresh();
    let t = true.into_val(&mut env);
    let h = t.as_handle();
    let start = env.host().calls.len();
    assert!(bool::take_ownership(&mut env, h));
    assert_eq!(
        env.host().calls_from(start),
        vec![format!("not({})=false", h), format!("dec_ref({})", h)]
    );
}

#[test]
fn optional_booleans_are_absent_for_errors() {
    let mut env = fresh();
    let e = host_error(&mut env, "bad");
    assert_eq!(Option::<bool>::from_val(&mut env, &e), None);
    let t = true.into_val(&mut env);
    assert_eq!(Option::<bool>::from_val(&mut env, &t), Some(true));
    let zero = 0i32.into_val(&mut env);
    assert_eq!(Option::<bool>::from_val(&mut env, &zero), Some(false));
    let h = zero.as_handle();
    assert_eq!(Option::<bool>::take_ownership(&mut env, h), Some(false));
    assert!(!env.host().is_live(h));
}

#[test]
fn unit_converts_to_undefined_and_reads_from_anything() {
    let mut env = fresh();
    let u = ().into_val(&mut env);
    assert!(u.is_undefined());
    let n = 1i32.into_val(&mut env);
    let start = env.host().calls.len();
    <()>::from_val(&mut env, &n);
    assert_eq!(env.host().calls.len(), start);
    <()>::take_ownership(&mut env, n.as_handle());
    assert_eq!(env.host().calls_from(start), vec![format!("dec_ref({})", n.as_handle())]);
    assert!(!env.host().is_live(n.as_handle()));
    assert_eq!(().as_handle(), 1);
}

#[test]
fn strings_round_trip() {
    let mut env = fresh();
    for text in ["", "hello", "gr\u{fc}\u{df}e", "\u{1F600} smile"] {
        let v = text.into_val(&mut env);
        assert_eq!(Option::<String>::from_val(&mut env, &v), Some(text.to_string()));
        let owned = text.to_string();
        let w = (&owned).into_val(&mut env);
        assert_eq!(Option::<String>::from_val(&mut env, &w), Some(text.to_string()));
        let x = owned.into_val(&mut env);
        let r: Result<String, Val> = x.as_(&mut env);
        assert_eq!(r.ok(), Some(text.to_string()));
    }
}

#[test]
fn optional_strings_are_absent_for_values_that_are_no_string() {
    let mut env = fresh();
    let n = 5i32.into_val(&mut env);
    let h = n.as_handle();
    let start = env.host().calls.len();
    assert_eq!(Option::<String>::from_val(&mut env, &n), None);
    assert_eq!(env.host().calls_from(start), vec![format!("is_string({})=false", h)]);
    let s = "abc".into_val(&mut env);
    let start = env.host().calls.len();
    assert_eq!(Option::<String>::take_ownership(&mut env, s.as_handle()), Some("abc".to_string()));
    assert_eq!(
        env.host().calls_from(start),
        vec![
            format!("is_string({})=true", s.as_handle()),
            format!("get_value_string({})", s.as_handle()),
            format!("dec_ref({})", s.as_handle())
        ]
    );
    assert!(!env.host().is_live(s.as_handle()));
    let start = env.host().calls.len();
    assert_eq!(Option::<String>::take_ownership(&mut env, n.as_handle()), None);
    assert_eq!(
        env.host().calls_from(start),
        vec![format!("is_string({})=false", h), format!("dec_ref({})", h)]
    );
    assert_eq!(Option::<String>::take_ownership(&mut env, 0), None);
    assert_eq!(env.host().calls.last(), Some(&"dec_ref(0)".to_string()));
    assert_eq!(Some("abc".to_string()).as_handle(), 0);
}

#[test]
fn string_results_report_values_that_are_no_string() {
    let mut env = fresh();
    let n = 5i32.into_val(&mut env);
    let r = Result::<String, Val>::from_val(&mut env, &n);
    let e = r.err().expect("an error value");
    assert_eq!(env.host().value(e.as_handle()), Js::Error("Expected string".to_string()));
    assert!(env.host().is_live(n.as_handle()));
    let r = Result::<String, Val>::take_ownership(&mut env, n.as_handle());
    let e = r.err().expect("an error value");
    assert_eq!(env.host().value(e.as_handle()), Js::Error("Expected string".to_string()));
    assert!(!env.host().is_live(n.as_handle()));
}

/// A host that claims every value is a string and has no text for any.
struct NullTextHost {
    inner: TableHost,
}

impl Host for NullTextHost {
    fn init_handle_table(&mut self) {
        self.inner.init_handle_table()
    }
    fn val_new_array(&mut self) -> Handle {
        self.inner.val_new_array()
    }
    fn val_new_object(&mut self) -> Handle {
        self.inner.val_new_object()
    }
    fn val_make_bool(&mut self, value: bool) -> Handle {
        self.inner.val_make_bool(value)
    }
    fn val_make_int(&mut self, value: i32) -> Handle {
        self.inner.val_make_int(value)
    }
    fn val_make_uint(&mut self, value: u32) -> Handle {
        self.inner.val_make_uint(value)
    }
    fn val_make_bigint(&mut self, value: i64) -> Handle {
        self.inner.val_make_bigint(value)
    }
    fn val_make_biguint(&mut self, value: u64) -> Handle {
        self.inner.val_make_biguint(value)
    }
    fn val_make_str(&mut self, value: &str) -> Handle {
        self.inner.val_make_str(value)
    }
    fn val_make_str_utf16(&mut self, value: &[u16]) -> Handle {
        self.inner.val_make_str_utf16(value)
    }
    fn val_get_value_bool(&mut self, h: Handle) -> bool {
        self.inner.val_get_value_bool(h)
    }
    fn val_get_value_int(&mut self, h: Handle) -> i32 {
        self.inner.val_get_value_int(h)
    }
    fn val_get_value_uint(&mut self, h: Handle) -> u32 {
        self.inner.val_get_value_uint(h)
    }
    fn val_get_value_bigint(&mut self, h: Handle) -> i64 {
        self.inner.val_get_value_bigint(h)
    }
    fn val_get_value_biguint(&mut self, h: Handle) -> u64 {
        self.inner.val_get_value_biguint(h)
    }
    fn val_get_value_string(&mut self, _h: Handle) -> Option<String> {
        None
    }
    fn val_get_value_string_utf16(&mut self, _h: Handle) -> Option<Vec<u16>> {
        None
    }
    fn val_typeof(&mut self, _h: Handle) -> Option<String> {
        None
    }
    fn val_push(&mut self, arr: Handle, v: Handle) {
        self.inner.val_push(arr, v)
    }
    fn val_get(&mut self, obj: Handle, key: Handle) -> Handle {
        self.inner.val_get(obj, key)
    }
    fn val_set(&mut self, obj: Handle, key: Handle, v: Handle) {
        self.inner.val_set(obj, key, v)
    }
    fn val_has(&mut self, obj: Handle, key: Handle) -> bool {
        self.inner.val_has(obj, key)
    }
    fn val_not(&mut self, h: Handle) -> bool {
        self.inner.val_not(h)
    }
    fn val_is_string(&mut self, _h: Handle) -> bool {
        true
    }
    fn val_is_number(&mut self, _h: Handle) -> bool {
        true
    }
    fn val_is_bool(&mut self, h: Handle) -> bool {
        self.inner.val_is_bool(h)
    }
    fn val_gt(&mut self, a: Handle, b: Handle) -> bool {
        self.inner.val_gt(a, b)
    }
    fn val_gte(&mut self, a: Handle, b: Handle) -> bool {
        self.inner.val_gte(a, b)
    }
    fn val_lt(&mut self, a: Handle, b: Handle) -> bool {
        self.inner.val_lt(a, b)
    }
    fn val_lte(&mut self, a: Handle, b: Handle) -> bool {
        self.inner.val_lte(a, b)
    }
    fn val_equals(&mut self, a: Handle, b: Handle) -> bool {
        self.inner.val_equals(a, b)
    }
    fn val_strictly_equals(&mut self, a: Handle, b: Handle) -> bool {
        self.inner.val_strictly_equals(a, b)
    }
    fn val_instanceof(&mut self, a: Handle, b: Handle) -> bool {
        self.inner.val_instanceof(a, b)
    }
    fn val_obj_call(&mut self, obj: Handle, method: &str, argv: Handle) -> Handle {
        self.inner.val_obj_call(obj, method, argv)
    }
    fn val_obj_has_own_prop(&mut self, obj: Handle, prop: &str) -> bool {
        self.inner.val_obj_has_own_prop(obj, prop)
    }
    fn val_construct_new(&mut self, ctor: Handle, argv: Handle) -> Handle {
        self.inner.val_construct_new(ctor, argv)
    }
    fn val_func_call(&mut self, func: Handle, argv: Handle) -> Handle {
        self.inner.val_func_call(func, argv)
    }
    fn val_inc_ref(&mut self, h: Handle) {
        self.inner.val_inc_ref(h)
    }
    fn val_dec_ref(&mut self, h: Handle) {
        self.inner.val_dec_ref(h)
    }
    fn val_throw(&mut self, h: Handle) {
        self.inner.val_throw(h)
    }
    fn print_object_map(&mut self) {
        self.inner.print_object_map()
    }
    fn reset_object_map(&mut self) {
        self.inner.reset_object_map()
    }
    fn val_make_callback(&mut self, fidx: Handle, data: Handle) -> Handle {
        self.inner.val_make_callback(fidx, data)
    }
}

#[test]
fn a_null_string_pointer_is_absent_not_empty() {
    let mut env = Env::new(NullTextHost { inner: TableHost::new() });
    let s = "abc".into_val(&mut env);
    assert_eq!(Option::<String>::from_val(&mut env, &s), None);
    assert_eq!(Option::<Vec<u16>>::from_val(&mut env, &s), None);
    assert_eq!(s.type_of(&mut env), "undefined");
    let r = Result::<String, Val>::from_val(&mut env, &s);
    let e = r.err().expect("an error value");
    assert_eq!(env.host().inner.value(e.as_handle()), Js::Error("Null string".to_string()));
    let r = s.to_utf16_result(&mut env);
    let e = r.err().expect("an error value");
    assert_eq!(env.host().inner.value(e.as_handle()), Js::Error("Null UTF-16 string".to_string()));
    let r = Result::<Vec<u16>, Val>::take_ownership(&mut env, s.as_handle());
    let e = r.err().expect("an error value");
    assert_eq!(env.host().inner.value(e.as_handle()), Js::Error("Null UTF-16 string".to_string()));
    assert!(!env.host().inner.is_live(s.as_handle()));
}

#[test]
fn a_host_that_calls_null_a_number_still_gets_none() {
    let mut env = Env::new(NullTextHost { inner: TableHost::new() });
    assert_eq!(Option::<i32>::from_val(&mut env, &Val::null()), None);
    assert_eq!(Option::<i32>::from_val(&mut env, &Val::undefined()), None);
    assert_eq!(Option::<String>::from_val(&mut env, &Val::null()), None);
    let n = 3i32.into_val(&mut env);
    assert_eq!(Option::<i32>::from_val(&mut env, &n), Some(3));
}

#[test]
fn utf16_units_round_trip() {
    let mut env = fresh();
    let units: Vec<u16> = vec![0x0068, 0x0069, 0xD83D, 0xDE00];
    let v = Val::from_utf16(&mut env, &units);
    assert_eq!(env.host().value(v.as_handle()), Js::Str(units.clone()));
    assert_eq!(v.to_utf16(&mut env), Some(units.clone()));
    assert_eq!(v.to_utf16_result(&mut env).ok(), Some(units.clone()));
    let w = units.as_slice().into_val(&mut env);
    assert_eq!(Option::<Vec<u16>>::from_val(&mut env, &w), Some(units.clone()));
    let x = (&units).into_val(&mut env);
    assert_eq!(Option::<Vec<u16>>::from_val(&mut env, &x), Some(units.clone()));
    let y = units.clone().into_val(&mut env);
    assert_eq!(Option::<Vec<u16>>::take_ownership(&mut env, y.as_handle()), Some(units.clone()));
    assert!(!env.host().is_live(y.as_handle()));
    assert_eq!(env.host().calls.last(), Some(&format!("dec_ref({})", y.as_handle())));
    let lone: Vec<u16> = vec![0xD800];
    let z = Val::from_utf16(&mut env, &lone);
    assert_eq!(z.to_utf16(&mut env), Some(lone));
}

#[test]
fn utf16_to_string_decodes_valid_units() {
    assert_eq!(Val::utf16_to_string(&[]), Ok(String::new()));
    assert_eq!(Val::utf16_to_string(&[0x0068, 0x0069]), Ok("hi".to_string()));
    assert_eq!(Val::utf16_to_string(&[0xD83D, 0xDE00]), Ok("\u{1F600}".to_string()));
    assert_eq!(Val::utf16_to_string(&[0xFFFF]), Ok("\u{FFFF}".to_string()));
}

#[test]
fn utf16_to_string_rejects_unpaired_surrogates() {
    assert_eq!(Val::utf16_to_string(&[0xD800]), Err(()));
    assert_eq!(Val::utf16_to_string(&[0xDC00]), Err(()));
    assert_eq!(Val::utf16_to_string(&[0x0041, 0xD83D]), Err(()));
    assert_eq!(Val::utf16_to_string(&[0xDE00, 0xD83D]), Err(()));
}

#[test]
fn str_to_utf16_encodes_as_the_standard_library_does() {
    for text in ["", "a", "gr\u{fc}\u{df}e", "\u{FFFF}", "\u{10000}", "\u{10FFFF}", "x\u{1F600}y"] {
        let expected: Vec<u16> = text.encode_utf16().collect();
        assert_eq!(str_to_utf16(text), expected);
        assert_eq!(Val::utf16_to_string(&str_to_utf16(text)), Ok(text.to_string()));
    }
    assert_eq!(str_to_utf16("\u{1F600}"), vec![0xD83D, 0xDE00]);
    assert_eq!(str_to_utf16("\u{10000}"), vec![0xD800, 0xDC00]);
    assert_eq!(str_to_utf16("\u{10FFFF}"), vec![0xDBFF, 0xDFFF]);
}

#[test]
fn from_string_via_utf16_hands_over_code_units() {
    let mut env = fresh();
    let v = Val::from_string_via_utf16(&mut env, "a\u{1F600}");
    assert_eq!(env.host().calls, words(&["make_str_utf16([97, 55357, 56832])=9"]));
    assert_eq!(Option::<String>::from_val(&mut env, &v), Some("a\u{1F600}".to_string()));
}

#[test]
fn errors_take_the_error_arm_whatever_the_type() {
    let mut env = fresh();
    let e = host_error(&mut env, "bad");
    let h = e.as_handle();
    let r = Result::<i32, Val>::from_val(&mut env, &e);
    assert_eq!(r.err().expect("error arm").as_handle(), h);
    let r = Result::<u64, Val>::from_val(&mut env, &e);
    assert_eq!(r.err().expect("error arm").as_handle(), h);
    let r = Result::<bool, Val>::from_val(&mut env, &e);
    assert_eq!(r.err().expect("error arm").as_handle(), h);
    let r = Result::<String, Val>::from_val(&mut env, &e);
    assert_eq!(r.err().expect("error arm").as_handle(), h);
    let r = Result::<Vec<u16>, Val>::from_val(&mut env, &e);
    assert_eq!(r.err().expect("error arm").as_handle(), h);
    let r = Result::<Val, Val>::from_val(&mut env, &e);
    assert_eq!(r.err().expect("error arm").as_handle(), h);
    assert_eq!(i32::from_val(&mut env, &e), 0);
}

#[test]
fn the_error_arm_owns_a_reference_of_its_own() {
    let mut env = fresh();
    let e = host_error(&mut env, "bad");
    let h = e.as_handle();
    assert_eq!(env.host().refs(h), 1);
    let start = env.host().calls.len();
    let r = Result::<i32, Val>::from_val(&mut env, &e);
    assert!(r.is_err());
    assert_eq!(env.host().refs(h), 2);
    assert_eq!(env.host().calls_from(start).last(), Some(&format!("inc_ref({})", h)));
    let start = env.host().calls.len();
    let r = Result::<i32, Val>::take_ownership(&mut env, h);
    assert!(r.is_err());
    assert_eq!(env.host().refs(h), 2);
    assert_eq!(env.host().calls_from(start).len(), 6);
}

#[test]
fn values_that_are_no_error_take_the_ok_arm() {
    let mut env = fresh();
    let n = 77i32.into_val(&mut env);
    let h = n.as_handle();
    assert!(matches!(Result::<i32, Val>::from_val(&mut env, &n), Ok(77)));
    assert!(matches!(Result::<bool, Val>::from_val(&mut env, &n), Ok(true)));
    let r = Result::<Val, Val>::from_val(&mut env, &n);
    assert_eq!(r.as_handle(), h);
    assert_eq!(r.ok().expect("ok arm").as_handle(), h);
    assert_eq!(env.host().refs(h), 2);
    let start = env.host().calls.len();
    assert!(matches!(Result::<i32, Val>::take_ownership(&mut env, h), Ok(77)));
    assert_eq!(env.host().calls_from(start).len(), 8);
    assert_eq!(env.host().calls_from(start).last(), Some(&format!("dec_ref({})", h)));
    assert!(matches!(Result::<bool, Val>::take_ownership(&mut env, h), Ok(true)));
    let r = Result::<Val, Val>::take_ownership(&mut env, h);
    assert!(r.is_ok());
    let ok: Result<bool, Val> = Ok(true);
    assert_eq!(ok.as_handle(), 3);
    let int_ok: Result<i32, Val> = Ok(1);
    assert_eq!(int_ok.as_handle(), 0);
}

/// A native error that remembers the handle it was built from.
#[derive(Debug, PartialEq)]
struct NativeError {
    handle: Handle,
}

impl FromJsError for NativeError {
    fn from_js_error<H: Host>(_env: &mut Env<H>, val: &Val) -> Self {
        NativeError { handle: val.as_handle() }
    }
}

#[test]
fn host_errors_become_native_errors() {
    let mut env = fresh();
    let e = host_error(&mut env, "bad");
    let r: Result<i32, NativeError> = e.as_(&mut env);
    assert_eq!(r, Err(NativeError { handle: e.as_handle() }));
    let n = 5i32.into_val(&mut env);
    let r: Result<i32, NativeError> = n.as_(&mut env);
    assert_eq!(r, Ok(5));
    let r: Result<Option<String>, NativeError> = n.as_(&mut env);
    assert_eq!(r, Ok(None));
    assert_eq!(r.as_handle(), 0);
    let failed: Result<bool, NativeError> = Err(NativeError { handle: 9 });
    assert_eq!(failed.as_handle(), 0);
    let fine: Result<bool, NativeError> = Ok(true);
    assert_eq!(fine.as_handle(), 3);
}

#[test]
fn native_errors_take_ownership_and_give_the_reference_up() {
    let mut env = fresh();
    let e = host_error(&mut env, "bad");
    let h = e.as_handle();
    let r = Result::<i32, NativeError>::take_ownership(&mut env, h);
    assert_eq!(r, Err(NativeError { handle: h }));
    assert_eq!(env.host().calls.last(), Some(&format!("dec_ref({})", h)));
    assert!(!env.host().is_live(h));
    let n = 5i32.into_val(&mut env);
    let r = Result::<i32, NativeError>::take_ownership(&mut env, n.as_handle());
    assert_eq!(r, Ok(5));
    assert!(!env.host().is_live(n.as_handle()));
}

#[test]
fn the_error_test_alone_decides_the_arm() {
    let mut env = fresh();
    let n = 5i32.into_val(&mut env);
    let forced: Result<i32, NativeError> = result_from_error_test(&mut env, &n, true);
    assert_eq!(forced, Err(NativeError { handle: n.as_handle() }));
    let plain: Result<i32, NativeError> = result_from_error_test(&mut env, &n, false);
    assert_eq!(plain, Ok(5));
    let h = n.as_handle();
    let owned: Result<i32, NativeError> = owned_result_from_error_test(&mut env, n, false);
    assert_eq!(owned, Ok(5));
    assert!(!env.host().is_live(h));
}

// ---------------------------------------------------------------------------
// Console and scripts

#[test]
fn console_methods_call_the_console_and_give_the_result_up() {
    let mut env = fresh();
    let console = Console::get();
    let a = "hello".into_val(&mut env);
    let b = 3i32.into_val(&mut env);
    let start = env.host().calls.len();
    console.log(&mut env, &[a, b]);
    assert_eq!(
        env.host().calls_from(start),
        words(&["new_array=11", "push(11,9)", "push(11,10)", "obj_call(5,log,11)=1", "dec_ref(11)", "dec_ref(1)"])
    );
    console.warn(&mut env, &[]);
    console.info(&mut env, &[]);
    assert_eq!(env.host().console, words(&["log: hello 3", "warn: ", "info: "]));
    assert_eq!(console.as_handle(), 5);
    assert_eq!(console.type_of(&mut env), "object");
    assert!(!console.is_null());
}

#[test]
fn console_converts_to_a_value_with_the_same_handle() {
    let mut env = fresh();
    let second = Console::get().clone(&mut env);
    assert_eq!(second.as_handle(), 5);
    let v = second.into_val(&mut env);
    assert_eq!(v.as_handle(), 5);
    assert_eq!(env.host().calls, words(&["inc_ref(5)"]));
}

#[test]
fn decimal_digits_of_handles() {
    assert_eq!(u32_to_decimal(0), "0");
    assert_eq!(u32_to_decimal(7), "7");
    assert_eq!(u32_to_decimal(10), "10");
    assert_eq!(u32_to_decimal(1040), "1040");
    assert_eq!(u32_to_decimal(u32::MAX), "4294967295");
}

#[test]
fn await_evaluates_the_waiting_function() {
    let mut env = fresh();
    let p = Val::object(&mut env);
    let r = p.await_(&mut env);
    let expected = format!(
        r#"
            (async () => {{
                let obj = EMLITE_VALMAP.toValue({});
                let ret = await obj;
                return EMLITE_VALMAP.toHandle(ret);
            }})()
        "#,
        p.as_handle()
    );
    assert_eq!(env.host().evaluated, vec![expected]);
    let calls = env.host().calls_from(1);
    assert_eq!(calls.len(), 11);
    assert_eq!(calls[0], "make_str(eval)=10");
    assert_eq!(calls[1], "get(4,10)=8");
    assert_eq!(calls[2], "dec_ref(10)");
    assert_eq!(calls[3], "dec_ref(4)");
    assert!(calls[4].starts_with("make_str("));
    assert_eq!(calls[5], "new_array=12");
    assert_eq!(calls[6], "push(12,11)");
    assert_eq!(calls[7], format!("func_call(8,12)={}", r.as_handle()));
    assert_eq!(calls[8], "dec_ref(12)");
    assert_eq!(calls[9], "dec_ref(11)");
    assert_eq!(calls[10], "dec_ref(8)");
}

// ---------------------------------------------------------------------------
// The callback bridge

/// A closure that counts its calls and answers with the number of arguments.
struct Counter {
    hits: Rc<Cell<u32>>,
}

impl Callback<TableHost> for Counter {
    fn log(&self) -> CallbackLog {
        unreachable!()
    }

    fn call(&mut self, env: &mut Env<TableHost>, args: &[Val]) -> Val {
        self.hits.set(self.hits.get() + 1);
        (args.len() as u32).into_val(env)
    }
}

/// A trampoline that remembers what it was called with.
struct Recorder {
    tag: u32,
    seen: Rc<Cell<(u32, Handle, Handle)>>,
}

impl Trampoline<TableHost> for Recorder {
    fn log(&self) -> TrampolineLog {
        unreachable!()
    }

    fn invoke(&mut self, _env: &mut Env<TableHost>, argv: Handle, data: Handle) -> Handle {
        self.seen.set((self.tag, argv, data));
        self.tag
    }
}

fn recorder(tag: u32, seen: &Rc<Cell<(u32, Handle, Handle)>>) -> Box<dyn Trampoline<TableHost>> {
    Box::new(Recorder { tag, seen: seen.clone() })
}

#[test]
fn registration_takes_the_first_free_slot() {
    let seen = Rc::new(Cell::new((0, 0, 0)));
    let mut registry: CallbackRegistry<TableHost> = CallbackRegistry::new();
    assert_eq!(registry.len(), 0);
    assert_eq!(registry.first_free(), 0);
    assert_eq!(registry.register((Some(recorder(1, &seen)), None, 100)), Some(0));
    assert_eq!(registry.register((Some(recorder(2, &seen)), None, 101)), Some(1));
    assert_eq!(registry.register((Some(recorder(3, &seen)), None, 102)), Some(2));
    assert_eq!(registry.len(), 3);
    assert!(registry.is_registered(1));
    let freed = registry.unregister(1).expect("slot 1 was taken");
    assert_eq!(freed.2, 101);
    assert!(!registry.is_registered(1));
    assert_eq!(registry.len(), 3);
    assert_eq!(registry.first_free(), 1);
    assert_eq!(emlite_register_callback_unified(&mut registry, (Some(recorder(4, &seen)), None, 103)), Some(1));
    assert_eq!(registry.first_free(), 3);
    assert!(registry.unregister(7).is_none());
    assert!(!registry.is_registered(7));
}

#[test]
fn a_trampoline_without_data_is_called_with_undefined() {
    let mut env = fresh();
    let seen = Rc::new(Cell::new((0, 0, 0)));
    let mut registry: CallbackRegistry<TableHost> = CallbackRegistry::new();
    assert_eq!(emlite_register_callback(&mut registry, Some(recorder(8, &seen))), Some(0));
    assert_eq!(emlite_env_dyncall_apply(&mut registry, &mut env, 0, 40, 41), 8);
    assert_eq!(seen.get(), (8, 40, 1));
    assert_eq!(emlite_env_dyncall_apply(&mut registry, &mut env, 0, 0, 41), 0);
    assert_eq!(env.host().calls, words(&["dec_ref(1)", "dec_ref(41)"]));
}

#[test]
fn a_call_may_take_what_the_slot_calls_out_of_the_table() {
    let mut env = fresh();
    let seen = Rc::new(Cell::new((0, 0, 0)));
    let hits = Rc::new(Cell::new(0));
    let mut registry: CallbackRegistry<TableHost> = CallbackRegistry::new();
    assert_eq!(registry.register((Some(recorder(4, &seen)), None, 70)), Some(0));
    assert!(registry.checkout(3).is_none());
    let mut pack = registry.checkout(0).expect("slot 0 was taken");
    assert_eq!(pack.2, 70);
    assert!(registry.is_registered(0));
    assert_eq!(emlite_env_dyncall_apply(&mut registry, &mut env, 0, 9, 0), 1);
    assert_eq!(seen.get(), (0, 0, 0));
    let inner = Val::make_fn(&mut registry, &mut env, Some(Box::new(Counter { hits: hits.clone() })));
    assert_eq!(env.host().function(inner.as_handle()).0, 1);
    assert_eq!(invoke_pack(&mut pack, &mut env, 9), 4);
    assert_eq!(seen.get(), (4, 9, 70));
    registry.checkin(0, pack);
    assert_eq!(emlite_env_dyncall_apply(&mut registry, &mut env, 0, 11, 0), 4);
    assert_eq!(seen.get(), (4, 11, 70));
    assert_eq!(registry.len(), 2);
}

#[test]
fn what_comes_back_to_a_slot_that_was_torn_down_is_freed() {
    let mut env = fresh();
    let seen = Rc::new(Cell::new((0, 0, 0)));
    let mut registry: CallbackRegistry<TableHost> = CallbackRegistry::new();
    assert_eq!(registry.register((Some(recorder(4, &seen)), None, 70)), Some(0));
    let pack = registry.checkout(0).expect("slot 0 was taken");
    assert_eq!(emlite_env_dyncall_apply(&mut registry, &mut env, 0, 0, 71), 0);
    assert_eq!(env.host().calls, words(&["dec_ref(70)", "dec_ref(71)"]));
    assert!(!registry.is_registered(0));
    assert_eq!(Rc::strong_count(&seen), 2);
    registry.checkin(0, pack);
    assert!(!registry.is_registered(0));
    assert_eq!(Rc::strong_count(&seen), 1);
    assert_eq!(registry.register((Some(recorder(5, &seen)), None, 80)), Some(0));
    let other = registry.checkout(0).expect("slot 0 was taken");
    assert!(registry.unregister(0).is_some());
    assert_eq!(registry.register((Some(recorder(6, &seen)), None, 80)), Some(0));
    registry.checkin(0, other);
    assert_eq!(emlite_env_dyncall_apply(&mut registry, &mut env, 0, 9, 0), 6);
    registry.checkin(9, (None, None, 0));
    assert_eq!(registry.len(), 1);
}

#[test]
fn a_slot_that_calls_nothing_answers_with_undefined() {
    let mut env = fresh();
    let mut registry: CallbackRegistry<TableHost> = CallbackRegistry::new();
    assert_eq!(emlite_register_callback(&mut registry, None), Some(0));
    assert_eq!(emlite_env_dyncall_apply(&mut registry, &mut env, 0, 9, 0), 1);
    let f = Val::make_fn(&mut registry, &mut env, None);
    let (fidx, token) = env.host().function(f.as_handle());
    assert_eq!(fidx, 1);
    let start = env.host().calls.len();
    assert_eq!(emlite_env_dyncall_apply(&mut registry, &mut env, fidx, 9, token), 1);
    assert_eq!(env.host().calls.len(), start);
    assert!(registry.is_registered(fidx));
}

#[test]
fn a_freed_slot_is_reused_and_dispatches_to_the_new_closure() {
    let mut env = fresh();
    let seen = Rc::new(Cell::new((0, 0, 0)));
    let mut registry: CallbackRegistry<TableHost> = CallbackRegistry::new();
    assert_eq!(registry.register((Some(recorder(11, &seen)), None, 50)), Some(0));
    assert_eq!(emlite_env_dyncall_apply(&mut registry, &mut env, 0, 9, 0), 11);
    assert_eq!(seen.get(), (11, 9, 50));
    assert!(registry.unregister(0).is_some());
    assert_eq!(registry.register((Some(recorder(22, &seen)), None, 60)), Some(0));
    assert_eq!(emlite_env_dyncall_apply(&mut registry, &mut env, 0, 9, 0), 22);
    assert_eq!(seen.get(), (22, 9, 60));
    assert!(env.host().calls.is_empty());
}

#[test]
fn a_call_for_a_missing_slot_is_answered_with_undefined() {
    let mut env = fresh();
    let seen = Rc::new(Cell::new((0, 0, 0)));
    let mut registry: CallbackRegistry<TableHost> = CallbackRegistry::new();
    assert_eq!(emlite_env_dyncall_apply(&mut registry, &mut env, 0, 9, 9), 1);
    assert_eq!(emlite_env_dyncall_apply(&mut registry, &mut env, 0, 0, 9), 1);
    assert_eq!(registry.register((Some(recorder(1, &seen)), None, 50)), Some(0));
    assert_eq!(emlite_env_dyncall_apply(&mut registry, &mut env, 1, 9, 9), 1);
    assert_eq!(emlite_env_dyncall_apply(&mut registry, &mut env, u32::MAX, 9, 9), 1);
    assert!(registry.unregister(0).is_some());
    assert_eq!(emlite_env_dyncall_apply(&mut registry, &mut env, 0, 9, 9), 1);
    assert_eq!(seen.get(), (0, 0, 0));
    assert!(env.host().calls.is_empty());
}

#[test]
fn teardown_releases_in_order_and_frees_the_closure() {
    let mut env = fresh();
    let seen = Rc::new(Cell::new((0, 0, 0)));
    let mut registry: CallbackRegistry<TableHost> = CallbackRegistry::new();
    let data = Val::object(&mut env);
    let token = Val::object(&mut env);
    assert_eq!(registry.register((Some(recorder(1, &seen)), None, data.as_handle())), Some(0));
    assert_eq!(Rc::strong_count(&seen), 2);
    let start = env.host().calls.len();
    assert_eq!(emlite_env_dyncall_apply(&mut registry, &mut env, 0, 0, token.as_handle()), 0);
    assert_eq!(
        env.host().calls_from(start),
        vec![format!("dec_ref({})", data.as_handle()), format!("dec_ref({})", token.as_handle())]
    );
    assert_eq!(Rc::strong_count(&seen), 1);
    assert_eq!(seen.get(), (0, 0, 0));
    assert!(!registry.is_registered(0));
    assert_eq!(registry.len(), 1);
}

#[test]
fn make_fn_raw_pins_the_data_and_exposes_the_slot() {
    let mut env = fresh();
    let seen = Rc::new(Cell::new((0, 0, 0)));
    let mut registry: CallbackRegistry<TableHost> = CallbackRegistry::new();
    let data = Val::object(&mut env);
    let d = data.as_handle();
    let start = env.host().calls.len();
    let f = Val::make_fn_raw(&mut registry, &mut env, (Some(recorder(5, &seen)), None, d));
    assert_eq!(
        env.host().calls_from(start),
        vec![
            format!("inc_ref({})", d),
            "make_biguint(0)=10".to_string(),
            "make_callback(0,10)=11".to_string()
        ]
    );
    assert_eq!(f.as_handle(), 11);
    assert_eq!(env.host().refs(d), 2);
    assert_eq!(env.host().function(11), (0, 10));
    assert!(registry.is_registered(0));
    assert_eq!(emlite_env_dyncall_apply(&mut registry, &mut env, 0, 33, 10), 5);
    assert_eq!(seen.get(), (5, 33, d));
    assert!(f.is_function(&mut env));
}

#[test]
fn a_counting_closure_is_called_twice_and_then_torn_down() {
    let mut env = fresh();
    let hits = Rc::new(Cell::new(0));
    let mut registry: CallbackRegistry<TableHost> = CallbackRegistry::new();
    let f = Val::make_fn(&mut registry, &mut env, Some(Box::new(Counter { hits: hits.clone() })));
    let (fidx, token) = env.host().function(f.as_handle());
    assert_eq!(fidx, 0);
    assert_eq!(Rc::strong_count(&hits), 2);

    let args = Val::from_slice(&mut env, &[1i32, 2, 3]);
    let r = emlite_env_dyncall_apply(&mut registry, &mut env, fidx, args.as_handle(), token);
    assert_eq!(hits.get(), 1);
    assert_eq!(env.host().calls[env.host().calls.len() - 6], "make_uint(3)=".to_string() + &r.to_string());
    assert!(!env.host().is_live(args.as_handle()));

    let none = Val::array(&mut env);
    let _ = emlite_env_dyncall_apply(&mut registry, &mut env, fidx, none.as_handle(), token);
    assert_eq!(hits.get(), 2);
    assert!(registry.is_registered(fidx));

    assert_eq!(emlite_env_dyncall_apply(&mut registry, &mut env, fidx, 0, token), 0);
    assert_eq!(hits.get(), 2);
    assert_eq!(Rc::strong_count(&hits), 1);
    assert!(!registry.is_registered(fidx));

    let again = Val::array(&mut env);
    let start = env.host().calls.len();
    assert_eq!(emlite_env_dyncall_apply(&mut registry, &mut env, fidx, again.as_handle(), token), 1);
    assert_eq!(emlite_env_dyncall_apply(&mut registry, &mut env, fidx, 0, token), 1);
    assert_eq!(hits.get(), 2);
    assert_eq!(env.host().calls.len(), start);
}

#[test]
fn the_life_of_an_exposed_closure_leaves_no_reference_behind() {
    let mut env = fresh();
    let hits = Rc::new(Cell::new(0));
    let mut registry: CallbackRegistry<TableHost> = CallbackRegistry::new();
    let f = Val::make_fn(&mut registry, &mut env, Some(Box::new(Counter { hits: hits.clone() })));
    assert_eq!(
        env.host().calls,
        words(&[
            "make_uint(0)=9",
            "inc_ref(9)",
            "make_biguint(0)=10",
            "make_callback(0,10)=11",
            "dec_ref(9)"
        ])
    );
    assert_eq!(f.as_handle(), 11);
    assert_eq!(env.host().refs(9), 1);
    assert_eq!(env.host().refs(10), 1);
    assert_eq!(emlite_env_dyncall_apply(&mut registry, &mut env, 0, 0, 10), 0);
    assert!(!env.host().is_live(9));
    assert!(!env.host().is_live(10));
    assert!(env.host().is_live(11));
    f.drop(&mut env);
    assert!(!env.host().is_live(11));
}

#[test]
fn a_second_closure_takes_the_next_slot() {
    let mut env = fresh();
    let first = Rc::new(Cell::new(0));
    let second = Rc::new(Cell::new(0));
    let mut registry: CallbackRegistry<TableHost> = CallbackRegistry::new();
    let f = Val::make_fn(&mut registry, &mut env, Some(Box::new(Counter { hits: first.clone() })));
    let g = Val::make_fn(&mut registry, &mut env, Some(Box::new(Counter { hits: second.clone() })));
    let (fi, ft) = env.host().function(f.as_handle());
    let (gi, gt) = env.host().function(g.as_handle());
    assert_eq!((fi, gi), (0, 1));
    let a = Val::array(&mut env);
    let _ = emlite_env_dyncall_apply(&mut registry, &mut env, gi, a.as_handle(), gt);
    assert_eq!((first.get(), second.get()), (0, 1));
    assert_eq!(emlite_env_dyncall_apply(&mut registry, &mut env, fi, 0, ft), 0);
    let h = Val::make_fn(&mut registry, &mut env, Some(Box::new(Counter { hits: first.clone() })));
    assert_eq!(env.host().function(h.as_handle()).0, 0);
    let b = Val::array(&mut env);
    let _ = emlite_env_dyncall_apply(&mut registry, &mut env, 0, b.as_handle(), 0);
    assert_eq!((first.get(), second.get()), (1, 1));
}

#[test]
fn the_shim_decodes_calls_and_releases() {
    let mut env = fresh();
    let hits = Rc::new(Cell::new(0));
    let mut closure: Box<dyn Callback<TableHost>> = Box::new(Counter { hits: hits.clone() });
    let args = Val::from_slice(&mut env, &["x", "y"]);
    let items = env.host().elements(args.as_handle());
    let start = env.host().calls.len();
    let r = shim(&mut closure, &mut env, args.as_handle());
    assert_eq!(hits.get(), 1);
    let calls = env.host().calls_from(start);
    let tail: Vec<String> = calls[calls.len() - 5..].to_vec();
    assert_eq!(
        tail,
        vec![
            format!("make_uint(2)={}", r),
            format!("dec_ref({})", r),
            format!("dec_ref({})", items[0]),
            format!("dec_ref({})", items[1]),
            format!("dec_ref({})", args.as_handle())
        ]
    );
}

#[test]
fn decode_and_finish_frame_one_call() {
    let mut env = fresh();
    let argv = Val::from_slice(&mut env, &[4i32, 5]);
    let items = env.host().elements(argv.as_handle());
    let args = decode_args(&mut env, &argv);
    assert_eq!(args.len(), 2);
    assert_eq!(args[0].as_handle(), items[0]);
    assert_eq!(args[1].as_handle(), items[1]);
    let result = Val::object(&mut env);
    let rh = result.as_handle();
    let ah = argv.as_handle();
    let start = env.host().calls.len();
    assert_eq!(finish_call(&mut env, result, args, argv), rh);
    assert_eq!(
        env.host().calls_from(start),
        vec![
            format!("dec_ref({})", rh),
            format!("dec_ref({})", items[0]),
            format!("dec_ref({})", items[1]),
            format!("dec_ref({})", ah)
        ]
    );
}
