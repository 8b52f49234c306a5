use vstd::prelude::*;

verus! {

/// The space-joined form of an argument list: the arguments in order,
/// separated by single spaces; empty when there are no arguments.
pub open spec fn joined_args(args: Seq<Seq<char>>) -> Seq<char>
    decreases args.len(),
{
    if args.len() == 0 {
        Seq::empty()
    } else if args.len() == 1 {
        args[0]
    } else {
        joined_args(args.drop_last()) + " "@ + args.last()
    }
}

/// The command line a registration persists: the application path, one
/// space, then the space-joined arguments (so a trailing space is kept
/// when the argument list is empty).
pub open spec fn launch_command(path: Seq<char>, args: Seq<Seq<char>>) -> Seq<char> {
    path + " "@ + joined_args(args)
}

/// Joins the arguments with single spaces.
pub fn join_args(args: &Vec<String>) -> (r: String)
    ensures
        r@ == joined_args(args.deep_view()),
{
    let mut s = String::new();
    let mut i: usize = 0;
    while i < args.len()
        invariant
            i <= args.len(),
            s@ == joined_args(args.deep_view().take(i as int)),
        decreases args.len() - i,
    {
        if i > 0 {
            s.append(" ");
        }
        s.append(args[i].as_str());
        proof {
            let full = args.deep_view();
            assert(full.take(i as int + 1).drop_last() =~= full.take(i as int));
            assert(full.take(i as int + 1).last() == full[i as int]);
            if i == 0 {
                assert(s@ =~= joined_args(full.take(i as int + 1)));
            }
        }
        i = i + 1;
    }
    proof {
        assert(args.deep_view().take(args.len() as int) =~= args.deep_view());
    }
    s
}

/// Builds the command line persisted for a registration.
pub fn build_launch_command(path: &str, args: &Vec<String>) -> (r: String)
    ensures
        r@ == launch_command(path@, args.deep_view()),
{
    let mut s = path.to_owned();
    s.append(" ");
    let joined = join_args(args);
    s.append(joined.as_str());
    proof {
        assert(s@ =~= launch_command(path@, args.deep_view()));
    }
    s
}

} // verus!
