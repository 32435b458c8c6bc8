//! What the command line says.
use vstd::prelude::*;
use vstd::utf8::encode_utf8;

use crate::text::concat;
use crate::text::same_text;

verus! {

/// What the value of `--listen` asks for.
#[derive(Debug, PartialEq)]
pub enum Listen {
    /// The value was a bare port: the address on all interfaces with that
    /// port.
    Port(String),
    /// The value is meant as a socket address and has yet to be read as
    /// one.
    Address(String),
}

/// Whether all bytes are digits.
pub open spec fn all_digits(bytes: Seq<u8>) -> bool {
    forall|i: int| 0 <= i < bytes.len() ==> 0x30 <= #[trigger] bytes[i] <= 0x39
}

/// Reads the value of `--listen`: a value of digits alone is a port on all
/// interfaces.
pub fn parse_listen(value: &str) -> (listen: Listen)
    ensures
        match listen {
            Listen::Port(address) => all_digits(encode_utf8(value@)) && address@ == "0.0.0.0:"@
                + value@,
            Listen::Address(address) => !all_digits(encode_utf8(value@)) && address@ == value@,
        },
{
    let bytes = value.as_bytes();
    let mut i: usize = 0;
    // Allow specifying only a port number.
    while i < bytes.len()
        invariant
            i <= bytes.len(),
            bytes@ == encode_utf8(value@),
            forall|j: int| 0 <= j < i ==> 0x30 <= #[trigger] bytes@[j] <= 0x39,
        decreases bytes.len() - i,
    {
        if !(0x30 <= bytes[i] && bytes[i] <= 0x39) {
            return Listen::Address(value.to_owned());
        }
        i += 1;
    }
    Listen::Port(concat("0.0.0.0:", value))
}

/// What the words of a list are.
pub open spec fn words_view(words: Seq<String>) -> Seq<Seq<char>> {
    Seq::new(words.len(), |i: int| words[i]@)
}

/// What the groups of a list are.
pub open spec fn groups_view(groups: Seq<Vec<String>>) -> Seq<Seq<Seq<char>>> {
    Seq::new(groups.len(), |i: int| words_view(groups[i]@))
}

/// The words in groups, where `--` ends one group and begins the next.
pub open spec fn groups_of(words: Seq<Seq<char>>) -> Seq<Seq<Seq<char>>>
    decreases words.len(),
{
    if words.len() == 0 {
        seq![Seq::empty()]
    } else {
        let before = groups_of(words.drop_last());
        if words.last() == "--"@ {
            before.push(Seq::empty())
        } else {
            before.drop_last().push(before.last().push(words.last()))
        }
    }
}

/// Splits the arguments of the program at each `--`: the first group holds
/// the name of the program and its options, each further group the command
/// of a server.
pub fn get_opts_and_commands(args: &Vec<String>) -> (groups: Vec<Vec<String>>)
    ensures
        groups_view(groups@) == groups_of(words_view(args@)),
        groups.len() > 0,
{
    let ghost words = words_view(args@);
    let mut groups: Vec<Vec<String>> = Vec::new();
    let mut current: Vec<String> = Vec::new();
    let mut i: usize = 0;
    proof {
        assert(words.take(0) =~= Seq::<Seq<char>>::empty());
        assert(words_view(current@) =~= Seq::<Seq<char>>::empty());
        assert(groups_view(groups@) =~= Seq::<Seq<Seq<char>>>::empty());
        assert(groups_view(groups@).push(words_view(current@)) =~= seq![
            Seq::<Seq<char>>::empty(),
        ]);
    }
    while i < args.len()
        invariant
            i <= args.len(),
            words == words_view(args@),
            groups_view(groups@).push(words_view(current@)) == groups_of(words.take(i as int)),
        decreases args.len() - i,
    {
        let ghost done = groups_view(groups@);
        let ghost open = words_view(current@);
        proof {
            assert(words.take(i + 1).drop_last() =~= words.take(i as int));
            assert(words.take(i + 1).last() == args@[i as int]@);
            assert(done.push(open).drop_last() =~= done);
        }
        if same_text(args[i].as_str(), "--") {
            let mut closed: Vec<String> = Vec::new();
            std::mem::swap(&mut closed, &mut current);
            groups.push(closed);
            proof {
                assert(groups_view(groups@) =~= done.push(open));
                assert(words_view(current@) =~= Seq::<Seq<char>>::empty());
            }
        } else {
            current.push(args[i].clone());
            proof {
                assert(words_view(current@) =~= open.push(args@[i as int]@));
                assert(groups_view(groups@) =~= done);
            }
        }
        i += 1;
    }
    proof {
        assert(words.take(i as int) =~= words);
    }
    let ghost done = groups_view(groups@);
    let ghost open = words_view(current@);
    groups.push(current);
    proof {
        assert(groups_view(groups@) =~= done.push(open));
    }
    groups
}

} // verus!
