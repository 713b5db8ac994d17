use vstd::prelude::*;

use crate::system::{is_ip_text, read_local_ip};
use crate::text::{decimal_digits, socket_address};
use crate::transfer::FTP_PORT;

verus! {

/// The folder, inside the documents folder, where received files land.
pub const RECEPTION_FOLDER: &'static str = "Remit";

/// The address shown for the server when the local one cannot be read.
pub const LOOPBACK_ADDRESS: &'static str = "127.0.0.1";

/// The address on which the FTP server listens: every interface.
pub const ANY_ADDRESS: &'static str = "0.0.0.0";

/// The greeting of the FTP server.
pub const GREETING: &'static str = "Welcome to my FTP server";

/// The first port of the range used for passive transfers.
pub const PASSIVE_PORT_FIRST: u16 = 50000;

/// The last port of the range used for passive transfers.
pub const PASSIVE_PORT_LAST: u16 = 50010;

/// The address at which the server is reported to run: the local one, or
/// the loopback address when it cannot be read.
pub fn server_ip_or_loopback(local: Option<String>) -> (r: String)
    ensures
        match local {
            Some(ip) => r == ip,
            None => r@ == LOOPBACK_ADDRESS@,
        },
{
    match local {
        Some(ip) => ip,
        None => LOOPBACK_ADDRESS.to_string(),
    }
}

proof fn lemma_loopback_is_ip_text()
    ensures
        is_ip_text(LOOPBACK_ADDRESS@),
{
    reveal_strlit("127.0.0.1");
    assert(LOOPBACK_ADDRESS@ =~= seq!['1', '2', '7', '.', '0', '.', '0', '.', '1']);
}

/// The address at which the server is reported to run, read from the
/// machine; the loopback address when the machine reports none. Whichever it
/// is, it is the text of an IP address.
pub fn server_ip() -> (r: String)
    ensures
        is_ip_text(r@),
{
    proof {
        lemma_loopback_is_ip_text();
    }
    let local = match read_local_ip() {
        Some(address) => Some(address.into_text()),
        None => None,
    };
    server_ip_or_loopback(local)
}

/// The socket address on which the FTP server listens.
pub fn listen_address() -> (r: String)
    ensures
        r@ == ANY_ADDRESS@ + seq![':'] + decimal_digits(FTP_PORT as nat),
{
    socket_address(ANY_ADDRESS, FTP_PORT)
}

/// A path named by a file-system event in the reception folder.
pub struct WatchedPath {
    /// The path as text.
    pub path: String,
    /// Whether the path is a regular file.
    pub is_file: bool,
    /// The path's file name, when it has one that is valid Unicode.
    pub file_name: Option<String>,
}

/// A received file to copy to the public documents folder.
pub struct DocumentMove {
    /// Where the file is now.
    pub source_path: String,
    /// The name under which it is published.
    pub file_name: String,
}

/// Whether a watched path is a file to move: a regular file with a name.
pub open spec fn is_movable(p: WatchedPath) -> bool {
    p.is_file && p.file_name is Some
}

/// The files to move for the paths `paths` of a finished write, in order:
/// each regular file with a name, with its path and name.
pub open spec fn moves_for(paths: Seq<WatchedPath>) -> Seq<(Seq<char>, Seq<char>)>
    decreases paths.len(),
{
    if paths.len() == 0 {
        seq![]
    } else {
        let rest = moves_for(paths.drop_last());
        let p = paths.last();
        if is_movable(p) {
            rest.push((p.path@, p.file_name->0@))
        } else {
            rest
        }
    }
}

/// Whether a watched path is a regular file that has a name.
pub open spec fn is_named_regular_file(p: WatchedPath) -> bool {
    p.is_file && p.file_name is Some
}

/// A watched path viewed as the path and the name under which it moves.
pub open spec fn path_and_name(p: WatchedPath) -> (Seq<char>, Seq<char>) {
    (p.path@, p.file_name->0@)
}

/// Every regular file with a name moves, whatever its name: the moves for
/// `paths` are its regular files that have a name, kept in their order, each
/// with its path and name; there are exactly as many moves as such files, and
/// each such file is among them.
pub proof fn lemma_moves_are_the_named_regular_files(paths: Seq<WatchedPath>)
    ensures
        moves_for(paths) == paths.filter(|p: WatchedPath| is_named_regular_file(p)).map_values(
            |p: WatchedPath| path_and_name(p),
        ),
        moves_for(paths).len() == paths.filter(|p: WatchedPath| is_named_regular_file(p)).len(),
        forall|k: int|
            0 <= k < paths.len() && paths[k].is_file && paths[k].file_name is Some
                ==> #[trigger] moves_for(paths).contains(path_and_name(paths[k])),
    decreases paths.len(),
{
    reveal(Seq::filter);
    let pred = |p: WatchedPath| is_named_regular_file(p);
    let entry = |p: WatchedPath| path_and_name(p);
    if paths.len() == 0 {
        assert(paths.filter(pred).map_values(entry) =~= seq![]);
    } else {
        let init = paths.drop_last();
        lemma_moves_are_the_named_regular_files(init);
        let last = paths.last();
        if is_named_regular_file(last) {
            assert(paths.filter(pred) == init.filter(pred).push(last));
            assert(paths.filter(pred).map_values(entry) =~= init.filter(pred).map_values(
                entry,
            ).push(path_and_name(last)));
        } else {
            assert(paths.filter(pred) == init.filter(pred));
        }
        assert forall|k: int|
            0 <= k < paths.len() && paths[k].is_file && paths[k].file_name is Some implies
                #[trigger] moves_for(paths).contains(path_and_name(paths[k])) by {
            if k == paths.len() - 1 {
                assert(moves_for(paths).last() == path_and_name(paths[k]));
            } else {
                assert(init[k] == paths[k]);
                assert(moves_for(init).contains(path_and_name(init[k])));
                let j = choose|j: int|
                    0 <= j < moves_for(init).len() && moves_for(init)[j] == path_and_name(
                        init[k],
                    );
                assert(moves_for(paths)[j] == path_and_name(paths[k]));
            }
        }
    }
}

/// A document move viewed as its path and name.
pub open spec fn move_view(m: DocumentMove) -> (Seq<char>, Seq<char>) {
    (m.source_path@, m.file_name@)
}

/// The files to move after a file-system event. Each new file is moved
/// whole: only once it has been closed after writing, so a file still being
/// received is never moved. For any other event (its creation included)
/// nothing moves; for the closing of a write, each regular file with a name
/// moves, in order.
pub fn documents_to_move(write_closed: bool, paths: &Vec<WatchedPath>) -> (r: Vec<DocumentMove>)
    ensures
        r@.map_values(|m: DocumentMove| move_view(m)) == if write_closed {
            moves_for(paths@)
        } else {
            seq![]
        },
        write_closed ==> r@.map_values(|m: DocumentMove| move_view(m)) == paths@.filter(
            |p: WatchedPath| is_named_regular_file(p),
        ).map_values(|p: WatchedPath| path_and_name(p)),
{
    proof {
        lemma_moves_are_the_named_regular_files(paths@);
    }
    let mut moves: Vec<DocumentMove> = Vec::new();
    if !write_closed {
        assert(moves@.map_values(|m: DocumentMove| move_view(m)) =~= seq![]);
        return moves;
    }
    let mut i: usize = 0;
    while i < paths.len()
        invariant
            i <= paths.len(),
            moves@.map_values(|m: DocumentMove| move_view(m)) == moves_for(paths@.take(i as int)),
        decreases paths.len() - i,
    {
        assert(paths@.take(i + 1).drop_last() =~= paths@.take(i as int));
        let p = &paths[i];
        if p.is_file {
            match &p.file_name {
                Some(name) => {
                    let ghost before = moves@;
                    moves.push(DocumentMove { source_path: p.path.clone(), file_name: name.clone() });
                    assert(moves@.map_values(|m: DocumentMove| move_view(m)) =~= before.map_values(
                        |m: DocumentMove| move_view(m),
                    ).push((p.path@, name@)));
                },
                None => {},
            }
        }
        i = i + 1;
    }
    assert(paths@.take(paths.len() as int) =~= paths@);
    moves
}

} // verus!
