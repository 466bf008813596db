use vstd::prelude::*;
use crate::text::{chars_of, push_text, str_equal};
use crate::vm::error::{RuntimeError, RuntimeErrorView, RuntimeResult};
use crate::vm::value::{value_views, Value, ValueView};

verus! {

/// The characters of `s` from offset `i` on, with each pair of a backslash
/// and `mark`, taken from left to right, replaced by `with`.
pub open spec fn replaced_from(s: Seq<char>, i: int, mark: char, with: char) -> Seq<char>
    decreases s.len() - i,
{
    if i < 0 || i >= s.len() {
        Seq::empty()
    } else if i + 1 < s.len() && s[i] == '\\' && s[i + 1] == mark {
        seq![with] + replaced_from(s, i + 2, mark, with)
    } else {
        seq![s[i]] + replaced_from(s, i + 1, mark, with)
    }
}

/// The text of a string as the print built-ins show it: the two-character
/// escapes `\n`, `\t`, `\r` and `\\` are replaced, in this order and each over
/// the whole text, by a line feed, a tab, a carriage return and a backslash.
pub open spec fn unescaped(s: Seq<char>) -> Seq<char> {
    let a = replaced_from(s, 0, 'n', '\n');
    let b = replaced_from(a, 0, 't', '\t');
    let c = replaced_from(b, 0, 'r', '\r');
    replaced_from(c, 0, '\\', '\\')
}

/// How the print built-ins show one argument.
pub open spec fn shown(v: ValueView) -> Seq<char> {
    match v {
        ValueView::String(s) => unescaped(s),
        _ => v.text(),
    }
}

/// What the first `n` arguments print: each as it is shown, with one space
/// between two of them.
pub open spec fn printed(args: Seq<ValueView>, n: int) -> Seq<char>
    decreases n,
{
    if n <= 0 || n > args.len() {
        Seq::empty()
    } else if n == 1 {
        shown(args[0])
    } else {
        printed(args, n - 1) + " "@ + shown(args[n - 1])
    }
}

/// Whether a name is that of a built-in function.
pub open spec fn is_builtin_name(name: Seq<char>) -> bool {
    name == "print"@ || name == "println"@
}

/// What a call of a built-in function writes to the console: `print` writes
/// its arguments, `println` a line feed after them.
pub open spec fn builtin_output(name: Seq<char>, args: Seq<ValueView>) -> Seq<char> {
    if name == "println"@ {
        printed(args, args.len() as int) + "\n"@
    } else {
        printed(args, args.len() as int)
    }
}

fn replace_escape(s: &Vec<char>, mark: char, with: char) -> (r: Vec<char>)
    ensures
        r@ == replaced_from(s@, 0, mark, with),
{
    let mut out: Vec<char> = Vec::new();
    let mut i: usize = 0;
    while i < s.len()
        invariant
            i <= s.len(),
            out@ + replaced_from(s@, i as int, mark, with) == replaced_from(s@, 0, mark, with),
        decreases s.len() - i,
    {
        if s[i] == '\\' && i + 1 < s.len() && s[i + 1] == mark {
            out.push(with);
            i += 2;
        } else {
            out.push(s[i]);
            i += 1;
        }
    }
    out
}

/// Appends to `out` the text of `s` with its escapes replaced.
fn write_unescaped(s: &str, out: &mut String)
    ensures
        final(out)@ == old(out)@ + unescaped(s@),
{
    let a = replace_escape(&chars_of(s), 'n', '\n');
    let b = replace_escape(&a, 't', '\t');
    let c = replace_escape(&b, 'r', '\r');
    let d = replace_escape(&c, '\\', '\\');
    crate::text::push_range(out, &d, 0, d.len());
}

/// Built-in: print(...) - writes the values to `out`, the console text
fn builtin_print(args: &Vec<Value>, out: &mut String) -> (r: RuntimeResult<Value>)
    ensures
        r matches Ok(v) && v@ == ValueView::Void,
        final(out)@ == old(out)@ + printed(value_views(args@), args.len() as int),
{
    let ghost views = value_views(args@);
    let mut i: usize = 0;
    while i < args.len()
        invariant
            i <= args.len(),
            views == value_views(args@),
            out@ == old(out)@ + printed(views, i as int),
        decreases args.len() - i,
    {
        if i > 0 {
            push_text(out, " ");
        }
        match &args[i] {
            Value::String(s) => write_unescaped(s.as_str(), out),
            other => other.write_text(out),
        }
        i += 1;
    }
    Ok(Value::Void)
}

/// Built-in: println(...) - as `print`, with a line feed at the end
fn builtin_println(args: &Vec<Value>, out: &mut String) -> (r: RuntimeResult<Value>)
    ensures
        r matches Ok(v) && v@ == ValueView::Void,
        final(out)@ == old(out)@ + printed(value_views(args@), args.len() as int) + "\n"@,
{
    let r = builtin_print(args, out);
    push_text(out, "\n");
    r
}

/// Execute a built-in function: what it prints is appended to `out`.
pub fn call_builtin(name: &str, args: Vec<Value>, out: &mut String) -> (r: RuntimeResult<Value>)
    ensures
        is_builtin_name(name@) ==> {
            &&& r matches Ok(v) && v@ == ValueView::Void
            &&& final(out)@ == old(out)@ + builtin_output(name@, value_views(args@))
        },
        !is_builtin_name(name@) ==> {
            &&& r matches Err(e) && e@ == (RuntimeErrorView::UndefinedFunction { name: name@ })
            &&& final(out)@ == old(out)@
        },
{
    proof {
        reveal_strlit("print");
        reveal_strlit("println");
    }
    if str_equal(name, "print") {
        assert("print"@.len() == 5 && "println"@.len() == 7);
        let r = builtin_print(&args, out);
        r
    } else if str_equal(name, "println") {
        let r = builtin_println(&args, out);
        r
    } else {
        Err(RuntimeError::UndefinedFunction { name: name.to_string() })
    }
}

/// Check if a function name is a built-in
pub fn is_builtin(name: &str) -> (r: bool)
    ensures
        r == is_builtin_name(name@),
{
    str_equal(name, "print") || str_equal(name, "println")
}

} // verus!
