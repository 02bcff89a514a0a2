use vstd::prelude::*;

verus! {

/// The character sequences held by a sequence of strings.
pub open spec fn views(v: Seq<String>) -> Seq<Seq<char>> {
    v.map_values(|s: String| s@)
}

/// `parts` joined with a single space between neighbours.
pub open spec fn joined(parts: Seq<Seq<char>>) -> Seq<char>
    decreases parts.len(),
{
    if parts.len() == 0 {
        Seq::empty()
    } else if parts.len() == 1 {
        parts[0]
    } else {
        joined(parts.drop_last()) + seq![' '] + parts.last()
    }
}

/// A command followed by a space and its joined arguments: the text that a
/// shell receives after `-c`.
pub open spec fn command_text(command: Seq<char>, args: Seq<Seq<char>>) -> Seq<char> {
    command + seq![' '] + joined(args)
}

/// Joins the strings with one space between neighbours.
pub fn join_with_space(parts: &Vec<String>) -> (r: String)
    ensures
        r@ == joined(views(parts@)),
{
    let mut acc = String::new();
    if parts.len() == 0 {
        return acc;
    }
    acc.append(parts[0].as_str());
    assert(views(parts@).subrange(0, 1) =~= seq![parts@[0]@]);
    let mut i: usize = 1;
    while i < parts.len()
        invariant
            1 <= i <= parts.len(),
            acc@ == joined(views(parts@).subrange(0, i as int)),
        decreases parts.len() - i,
    {
        let ghost before = acc@;
        acc.append(" ");
        acc.append(parts[i].as_str());
        proof {
            reveal_strlit(" ");
            let s = views(parts@).subrange(0, i as int + 1);
            assert(s.drop_last() =~= views(parts@).subrange(0, i as int));
            assert(s.last() == parts@[i as int]@);
            assert(acc@ =~= before + seq![' '] + parts@[i as int]@);
        }
        i = i + 1;
    }
    assert(views(parts@).subrange(0, parts.len() as int) =~= views(parts@));
    acc
}

/// Appends copies of the strings of `src` to `dst`, in order.
pub fn extend_strings(dst: &mut Vec<String>, src: &Vec<String>)
    ensures
        views(final(dst)@) == views(old(dst)@) + views(src@),
{
    let ghost start = views(dst@);
    let mut i: usize = 0;
    while i < src.len()
        invariant
            i <= src.len(),
            views(dst@) =~= start + views(src@).subrange(0, i as int),
        decreases src.len() - i,
    {
        let ghost prev = dst@;
        dst.push(src[i].clone());
        proof {
            assert(views(dst@) =~= views(prev).push(src@[i as int]@));
            assert(views(src@).subrange(0, i as int + 1) =~= views(src@).subrange(0, i as int).push(
                src@[i as int]@,
            ));
        }
        i = i + 1;
    }
    assert(views(src@).subrange(0, src.len() as int) =~= views(src@));
}

/// Builds `command`, a space, then the arguments joined by spaces.
pub fn command_with_args(command: &str, args: &Vec<String>) -> (r: String)
    ensures
        r@ == command_text(command@, views(args@)),
{
    let joined_args = join_with_space(args);
    let mut r = String::from_str(command);
    r.append(" ");
    r.append(joined_args.as_str());
    proof {
        reveal_strlit(" ");
        assert(r@ =~= command_text(command@, views(args@)));
    }
    r
}

} // verus!
