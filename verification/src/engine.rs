//! The template engine, as far as this library relies on it.
//!
//! Templates are compiled and evaluated by `minijinja`. Nothing in this file
//! is proved: it states what the rest of the library takes the engine to do.
//! An environment is described by the template sources it holds and by
//! whether its settings are still those it was made with. Of rendering, only
//! the three templates that the library ships are spoken of, and only in an
//! environment whose settings were never changed.

use crate::context::Datum;
use crate::template::{asks, conversation_in, flag_in, shipped, ChatTemplate};
use minijinja::value::Value;
use vstd::prelude::*;

verus! {

/// `minijinja::Error`, carried through unread.
#[verifier::external_type_specification]
#[verifier::external_body]
pub struct ExError(minijinja::Error);

/// `minijinja::Environment`, seen only through [`loaded`] and [`as_made`].
#[verifier::external_type_specification]
#[verifier::external_body]
pub struct ExEnvironment<'source>(minijinja::Environment<'source>);

/// `minijinja::Template`, seen only through [`template_name`], [`template_home`]
/// and [`of_as_made`].
#[verifier::external_type_specification]
#[verifier::external_body]
pub struct ExTemplate<'env: 'source, 'source>(minijinja::Template<'env, 'source>);

/// Template sources by template name.
pub type Sources = Map<Seq<char>, Seq<char>>;

/// The templates an environment holds: the source each name was last added with.
pub uninterp spec fn loaded(env: minijinja::Environment) -> Sources;

/// Whether an environment has every setting as `Environment::new` gave it:
/// the formatter, the auto-escape callback, the globals, filters and tests,
/// the treatment of undefined values, the whitespace handling, and no loader.
/// Only its templates may have changed.
pub uninterp spec fn as_made(env: minijinja::Environment) -> bool;

/// Whether a template handle was fetched from the store of an environment
/// that was [`as_made`].
pub uninterp spec fn of_as_made(template: minijinja::Template) -> bool;

/// The name a template handle was fetched under.
pub uninterp spec fn template_name(template: minijinja::Template) -> Seq<char>;

/// The templates held by the environment a template handle was fetched from.
pub uninterp spec fn template_home(template: minijinja::Template) -> Sources;

/// `Environment::new`: the environment it makes holds no template yet, and
/// its settings are, by definition, those it was made with.
pub assume_specification<'source>[ minijinja::Environment::<'source>::new ]() -> (env: minijinja::Environment<'source>)
    ensures
        loaded(env) == Sources::empty(),
        as_made(env),
;

/// `Environment::add_template`: the source is compiled first. If the compiler
/// takes it, the template is stored under its name, in place of any template
/// that had the name before; if not, the error is returned and the environment
/// holds what it held. No setting is touched either way. The compiler takes
/// each of the three templates that this library ships.
pub assume_specification<'source>[ minijinja::Environment::<'source>::add_template ](
    env: &mut minijinja::Environment<'source>,
    name: &'source str,
    source: &'source str,
) -> (res: Result<(), minijinja::Error>)
    ensures
        shipped(name@, source@) ==> res is Ok,
        res is Ok ==> loaded(*final(env)) == loaded(*old(env)).insert(name@, source@),
        res is Err ==> loaded(*final(env)) == loaded(*old(env)),
        as_made(*final(env)) == as_made(*old(env)),
;

/// `Environment::get_template`: a handle is returned exactly when a template
/// is stored under the name (this build has no loader); the handle stands for
/// that name in that environment, and is of an environment as made exactly
/// when that environment is.
pub assume_specification<'source, 'a, 'b>[ minijinja::Environment::<'source>::get_template ](
    env: &'a minijinja::Environment<'source>,
    name: &'b str,
) -> (res: Result<minijinja::Template<'a, 'a>, minijinja::Error>)
    ensures
        res is Ok <==> loaded(*env).contains_key(name@),
        res matches Ok(template) ==> template_name(template) == name@ && template_home(template)
            == loaded(*env) && of_as_made(template) == as_made(*env),
;

/// `Template::render`, on a context built with `Value::from` and
/// `Value::from_iter`: each binding becomes an entry of the context map under
/// its name, a flag as a boolean, a text as a string, and a list of records as
/// a sequence of maps from field name to string.
///
/// Claimed of the call, for the three templates that this library ships and
/// nothing else, and only of a handle fetched from the store of an
/// environment whose settings are those `Environment::new` gave it (the
/// formatter, the auto-escape callback and the globals each bear on what is
/// written; a handle made from a string is not spoken of): rendered against
/// its own context (for TAIDE, of a conversation that has a message), a
/// shipped template evaluates without failure, and the text is the one that
/// the layout's spec function in `template` writes out. That function is this
/// library's reading of the
/// template's source under the engine's rules for `for`, `if`/`elif`, `set`,
/// `==`, `+` on strings, `[1:]`, `loop.index0`, and output without escaping.
#[verifier::external_body]
pub(crate) fn render(template: &minijinja::Template, context: &Vec<(&str, Datum)>) -> (res: Result<
    String,
    minijinja::Error,
>)
    ensures
        forall|layout: ChatTemplate|
            of_as_made(*template) && #[trigger] asks(
                layout,
                template_home(*template),
                template_name(*template),
                context.deep_view(),
            ) ==> res is Ok,
        forall|layout: ChatTemplate|
            of_as_made(*template) && #[trigger] asks(
                layout,
                template_home(*template),
                template_name(*template),
                context.deep_view(),
            ) ==> (res matches Ok(text) ==> text@ == layout.text(
                conversation_in(context.deep_view()),
                flag_in(context.deep_view()),
            )),
{
    let bindings = context.iter().map(|(name, datum)| (*name, match datum {
        Datum::Flag(flag) => Value::from(*flag),
        Datum::Text(text) => Value::from(*text),
        Datum::Records(records) => records.iter().map(|r| Value::from_iter(r.iter().copied())).collect(),
    }));
    template.render(Value::from_iter(bindings))
}

} // verus!
