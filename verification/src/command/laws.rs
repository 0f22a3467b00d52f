//! What holds of the text form of typed commands.

use vstd::prelude::*;
use crate::command::player::SetVolume;
use crate::command::raw::{
    command_text,
    distinct_keys,
    key_index,
    lemma_command_round_trip,
    plain_command,
    text_command,
    with_param,
    Params,
    RawCommandView,
};
use crate::command::typed::Command;
use crate::text::{free_of, int_text, lemma_int_text_plain, nat_text};

verus! {

/// Round trip of typed commands. A typed command whose raw form is plain
/// can be read back from its text: the same group, the same name, the same
/// parameters.
pub proof fn lemma_typed_round_trip<C: Command>(c: C)
    requires
        plain_command(c.raw()),
    ensures
        text_command(command_text(c.raw())) == Some(c.raw()),
{
    lemma_command_round_trip(c.raw());
}

/// Parameters stay plain when a plain key is set to a plain value.
pub proof fn lemma_with_plain_param(params: Params, key: Seq<char>, value: Seq<char>)
    requires
        distinct_keys(params),
        forall|i: int|
            0 <= i < params.len() ==> free_of(#[trigger] params[i].0, '&') && free_of(
                params[i].0,
                '=',
            ) && free_of(params[i].1, '&'),
        free_of(key, '&'),
        free_of(key, '='),
        free_of(value, '&'),
    ensures
        distinct_keys(with_param(params, key, value)),
        forall|i: int|
            0 <= i < with_param(params, key, value).len() ==> free_of(
                #[trigger] with_param(params, key, value)[i].0,
                '&',
            ) && free_of(with_param(params, key, value)[i].0, '=') && free_of(
                with_param(params, key, value)[i].1,
                '&',
            ),
{
    crate::command::raw::lemma_with_param(params, key, value);
    crate::command::raw::lemma_key_index(params, key);
    let after = with_param(params, key, value);
    assert forall|i: int| 0 <= i < after.len() implies free_of(#[trigger] after[i].0, '&')
        && free_of(after[i].0, '=') && free_of(after[i].1, '&') by {
        match key_index(params, key) {
            Some(k) => {
                if i != k {
                    assert(after[i] == params[i]);
                }
            },
            None => {
                if i < params.len() {
                    assert(after[i] == params[i]);
                }
            },
        }
    }
}

/// The command that sets a volume is plain, whatever player and level it
/// names: its text can always be read back. The same holds with the
/// sequence number that a channel adds.
pub proof fn lemma_set_volume_round_trip(c: SetVolume, sequence: u64)
    ensures
        text_command(command_text(c.raw())) == Some(c.raw()),
        text_command(
            command_text(
                RawCommandView {
                    params: with_param(c.raw().params, "SEQUENCE"@, nat_text(sequence as nat)),
                    ..c.raw()
                },
            ),
        ) == Some(
            RawCommandView {
                params: with_param(c.raw().params, "SEQUENCE"@, nat_text(sequence as nat)),
                ..c.raw()
            },
        ),
{
    reveal_strlit("player");
    reveal_strlit("set_volume");
    reveal_strlit("pid");
    reveal_strlit("level");
    reveal_strlit("SEQUENCE");
    lemma_int_text_plain(c.player_id.0 as int);
    lemma_int_text_plain(c.level@);
    lemma_int_text_plain(sequence as int);
    let empty: Params = Seq::empty();
    let first = with_param(empty, "pid"@, int_text(c.player_id.0 as int));
    lemma_with_plain_param(empty, "pid"@, int_text(c.player_id.0 as int));
    lemma_with_plain_param(first, "level"@, int_text(c.level@));
    lemma_with_plain_param(c.raw().params, "SEQUENCE"@, nat_text(sequence as nat));
    lemma_command_round_trip(c.raw());
    lemma_command_round_trip(
        RawCommandView {
            params: with_param(c.raw().params, "SEQUENCE"@, nat_text(sequence as nat)),
            ..c.raw()
        },
    );
}

} // verus!
