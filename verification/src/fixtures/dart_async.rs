//! A sample with async functions, objects with async methods, and callback
//! interfaces with async methods.
//!
//! Each function computes the answer of one exported call. What the export
//! waits for before it answers (a timer, a lock) is not part of the answer.

use vstd::prelude::*;
use crate::text::{join2, join3, std_to_uppercase, uppercase};

verus! {

/// The error of the fallible calls.
#[derive(Debug, Clone, Copy, PartialEq, Eq, Structural)]
pub enum MyError {
    Foo,
}

impl MyError {
    /// The message of the error.
    pub fn to_string(&self) -> (s: String)
        ensures
            s@ == "Foo"@,
    {
        String::from_str("Foo")
    }
}

/// The error of the calls that share a resource.
#[derive(Debug, Clone, Copy, PartialEq, Eq, Structural)]
pub enum AsyncError {
    Timeout,
}

impl AsyncError {
    /// The message of the error.
    pub fn to_string(&self) -> (s: String)
        ensures
            s@ == "Timeout"@,
    {
        String::from_str("Timeout")
    }
}

/// The error of the parser callback interface.
#[derive(Debug, Clone, Copy, PartialEq, Eq, Structural)]
pub enum ParserError {
    NotAnInt,
    UnexpectedError,
}

impl ParserError {
    /// The message of the error.
    pub fn to_string(&self) -> (s: String)
        ensures
            s@ == match self {
                ParserError::NotAnInt => "NotAnInt"@,
                ParserError::UnexpectedError => "UnexpectedError"@,
            },
    {
        match self {
            ParserError::NotAnInt => String::from_str("NotAnInt"),
            ParserError::UnexpectedError => String::from_str("UnexpectedError"),
        }
    }

    /// The error that stands for a failure which the callback did not
    /// declare: every such failure arrives as `UnexpectedError`.
    pub fn from_unexpected() -> (e: ParserError)
        ensures
            e == ParserError::UnexpectedError,
    {
        ParserError::UnexpectedError
    }
}

/// A record that an async call returns.
#[derive(Debug, Clone, PartialEq, Eq)]
pub struct MyRecord {
    pub a: String,
    pub b: u32,
}

/// How long a shared resource is held and how long a caller waits for it.
#[derive(Debug, Clone, Copy, PartialEq, Eq, Structural)]
pub struct SharedResourceOptions {
    pub release_after_ms: u16,
    pub timeout_ms: u16,
}

/// An object with async methods.
#[derive(Debug, Clone, Copy, PartialEq, Eq, Structural)]
pub struct Megaphone;

/// An object whose async constructor fails.
#[derive(Debug, Clone, Copy, PartialEq, Eq, Structural)]
pub struct FallibleMegaphone;

/// An object with async methods that is declared in an interface file.
#[derive(Debug, Clone, Copy, PartialEq, Eq, Structural)]
pub struct UdlMegaphone;

/// `Hello, ` and the name.
pub open spec fn greeting(who: Seq<char>) -> Seq<char> {
    "Hello, "@ + who
}

/// The greeting with an exclamation mark.
pub open spec fn exclamation(who: Seq<char>) -> Seq<char> {
    "Hello, "@ + who + "!"@
}

/// Greets `who`.
pub fn greet(who: String) -> (s: String)
    ensures
        s@ == greeting(who@),
{
    join2("Hello, ", who.as_str())
}

/// The answer of the async function that is ready at once.
pub fn always_ready() -> (ready: bool)
    ensures
        ready,
{
    true
}

/// The answer of `say`, which comes after two seconds.
pub fn say() -> (s: String)
    ensures
        s@ == "Hello, Future!"@,
{
    String::from_str("Hello, Future!")
}

/// The answer of `say_after`, which comes after the caller's delay.
pub fn say_after(who: String) -> (s: String)
    ensures
        s@ == exclamation(who@),
{
    join3("Hello, ", who.as_str(), "!")
}

/// The answer of `sleep`, which comes after the caller's delay.
pub fn sleep() -> (done: bool)
    ensures
        done,
{
    true
}

/// The answer of the async function that can fail: 42, or `Foo` on demand.
pub fn fallible_me(do_fail: bool) -> (r: Result<u8, MyError>)
    ensures
        r == if do_fail {
            Err::<u8, MyError>(MyError::Foo)
        } else {
            Ok::<u8, MyError>(42u8)
        },
{
    if do_fail {
        Err(MyError::Foo)
    } else {
        Ok(42)
    }
}

/// The answer of the async function that returns an object and can fail.
pub fn fallible_struct(do_fail: bool) -> (r: Result<Megaphone, MyError>)
    ensures
        r == if do_fail {
            Err::<Megaphone, MyError>(MyError::Foo)
        } else {
            Ok::<Megaphone, MyError>(Megaphone)
        },
{
    if do_fail {
        Err(MyError::Foo)
    } else {
        Ok(new_megaphone())
    }
}

/// The record of the two values.
pub fn new_my_record(a: String, b: u32) -> (record: MyRecord)
    ensures
        record.a@ == a@,
        record.b == b,
{
    MyRecord { a, b }
}

/// A new megaphone.
pub fn new_megaphone() -> (m: Megaphone)
    ensures
        m == Megaphone,
{
    Megaphone
}

/// A new megaphone, where `y` asks for one.
pub fn async_maybe_new_megaphone(y: bool) -> (m: Option<Megaphone>)
    ensures
        m == if y {
            Some(Megaphone)
        } else {
            None
        },
{
    if y {
        Some(new_megaphone())
    } else {
        None
    }
}

/// The answer of `say_after_with_tokio`, which comes after the caller's
/// delay.
pub fn say_after_with_tokio(who: String) -> (s: String)
    ensures
        s@ == "Hello, "@ + who@ + " (with Tokio)!"@,
{
    join3("Hello, ", who.as_str(), " (with Tokio)!")
}

/// What `use_shared_resource` answers: the timeout when the lock was not
/// acquired in time, success when it was.
pub fn use_shared_resource(acquired: bool) -> (r: Result<(), AsyncError>)
    ensures
        r == if acquired {
            Ok::<(), AsyncError>(())
        } else {
            Err::<(), AsyncError>(AsyncError::Timeout)
        },
{
    if acquired {
        Ok(())
    } else {
        Err(AsyncError::Timeout)
    }
}

impl Megaphone {
    /// The answer of the async method `say_after`: the greeting, yelled.
    pub fn say_after(&self, who: String) -> (s: String)
        ensures
            s@ == uppercase(exclamation(who@)),
    {
        let said = say_after(who);
        std_to_uppercase(said.as_str())
    }

    /// The answer of the async method without arguments: nothing.
    pub fn silence(&self) -> (s: String)
        ensures
            s@ == Seq::<char>::empty(),
    {
        String::new()
    }

    /// The answer of the async method that can fail.
    pub fn fallible_me(&self, do_fail: bool) -> (r: Result<u8, MyError>)
        ensures
            r == if do_fail {
                Err::<u8, MyError>(MyError::Foo)
            } else {
                Ok::<u8, MyError>(42u8)
            },
    {
        fallible_me(do_fail)
    }

    /// Yells the greeting at once.
    pub fn say_now(&self, who: String) -> (s: String)
        ensures
            s@ == uppercase(exclamation(who@)),
    {
        let said = join3("Hello, ", who.as_str(), "!");
        std_to_uppercase(said.as_str())
    }

    /// The answer of the async method `say_after_with_tokio`: the greeting,
    /// yelled.
    pub fn say_after_with_tokio(&self, who: String) -> (s: String)
        ensures
            s@ == uppercase("Hello, "@ + who@ + " (with Tokio)!"@),
    {
        let said = say_after_with_tokio(who);
        std_to_uppercase(said.as_str())
    }
}

impl FallibleMegaphone {
    /// The answer of the async constructor: it always fails.
    pub fn new() -> (r: Result<FallibleMegaphone, MyError>)
        ensures
            r == Err::<FallibleMegaphone, MyError>(MyError::Foo),
    {
        Err(MyError::Foo)
    }
}

impl UdlMegaphone {
    /// The answer of the async method `say_after`: the greeting, yelled.
    pub fn say_after(&self, who: String) -> (s: String)
        ensures
            s@ == uppercase("Hello, "@ + who@ + " (from UDL Megaphone)!"@),
    {
        let said = join3("Hello, ", who.as_str(), " (from UDL Megaphone)!");
        std_to_uppercase(said.as_str())
    }
}

} // verus!
