//! The names under which the partial form of a configuration type is
//! generated: a module and, inside it, a struct.

use vstd::prelude::*;
use heck::SnakeCase;

verus! {

/// The snake-case form of `name` as the `heck` crate computes it. Word
/// boundaries follow Unicode segmentation, so the library names the result
/// and leaves its definition to `heck`.
pub uninterp spec fn snake_case_of(name: Seq<char>) -> Seq<char>;

/// Calls `heck::SnakeCase::to_snake_case` on `name`.
///
/// Trusted: the result is the snake-case form of the argument and depends on
/// nothing else.
#[verifier::external_body]
fn to_snake_case(name: &str) -> (r: String)
    ensures
        r@ == snake_case_of(name@),
{
    name.to_snake_case()
}

/// The name of the module for a type whose snake-case name is `snake`.
pub open spec fn partial_mod_name(snake: Seq<char>) -> Seq<char> {
    "confique_partial_"@ + snake
}

/// The name of the partial struct for the type `config`.
pub open spec fn partial_struct_name(config: Seq<char>) -> Seq<char> {
    "Partial"@ + config
}

/// The names of the module and of the struct for the partial form of the
/// type `config_name`, given the snake-case form of that name.
pub fn partial_names_from(config_name: &str, snake: &str) -> (r: (String, String))
    ensures
        r.0@ == partial_mod_name(snake@),
        r.1@ == partial_struct_name(config_name@),
{
    let mut mod_name = "confique_partial_".to_owned();
    mod_name.append(snake);
    let mut struct_name = "Partial".to_owned();
    struct_name.append(config_name);
    (mod_name, struct_name)
}

/// The names of the module and of the struct for the partial form of the
/// type `config_name`: `(mod_name, struct_name)`.
pub fn partial_names(config_name: &str) -> (r: (String, String))
    ensures
        r.0@ == partial_mod_name(snake_case_of(config_name@)),
        r.1@ == partial_struct_name(config_name@),
{
    let snake = to_snake_case(config_name);
    partial_names_from(config_name, snake.as_str())
}

} // verus!
