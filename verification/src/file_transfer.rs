//! File transfer framing: a file is offered, sent as numbered chunks over
//! the (reliable, ordered) data channel, then completed. The receiving host
//! picks a destination that does not clobber an existing file.

use vstd::prelude::*;
use vstd::hash_set::StringHashSet;
use crate::control::FileTransferMessage;
use crate::paths::{file_extension, file_name, file_stem, joined_path, opt_view, path_exists, path_extension, path_file_name, path_file_stem, path_join};
use crate::ids::{new_uuid, uuid_string, uuid_text};
use crate::text::{decimal, push_char, push_decimal, push_str};
use vstd::slice::slice_to_vec;

verus! {

/// Bytes per chunk, comfortably under data-channel message-size limits.
pub const CHUNK_SIZE: usize = 16384;

/// How many chunks a file of `n` bytes is sent as.
pub open spec fn chunk_count(n: nat) -> nat {
    ((n + CHUNK_SIZE - 1) / (CHUNK_SIZE as int)) as nat
}

/// Chunk `k` of `data`.
pub open spec fn chunk_of(data: Seq<u8>, k: int) -> Seq<u8> {
    let end = if (k + 1) * CHUNK_SIZE <= data.len() {
        (k + 1) * CHUNK_SIZE
    } else {
        data.len() as int
    };
    data.subrange(k * CHUNK_SIZE, end)
}

/// The bytes a message carries: a chunk's data, nothing for the others.
pub open spec fn msg_bytes(m: FileTransferMessage) -> Seq<u8> {
    match m {
        FileTransferMessage::Chunk { data, .. } => data@,
        _ => Seq::empty(),
    }
}

/// The bytes carried by the `Chunk` messages of `msgs`, in order.
pub open spec fn chunk_bytes(msgs: Seq<FileTransferMessage>) -> Seq<u8>
    decreases msgs.len(),
{
    if msgs.len() == 0 {
        Seq::empty()
    } else {
        chunk_bytes(msgs.drop_last()) + msg_bytes(msgs.last())
    }
}

/// `msgs` is the sequence that sends `data` as file `file_name` under
/// transfer `id`: an offer with the size, the chunks in order with their
/// sequence numbers, then completion.
pub open spec fn is_transfer(msgs: Seq<FileTransferMessage>, id: Seq<char>, file_name: Seq<char>, data: Seq<u8>) -> bool {
    let count = chunk_count(data.len());
    &&& msgs.len() == count + 2
    &&& msgs[0] matches FileTransferMessage::Offer { transfer_id, file_name: f, size_bytes }
        && transfer_id@ == id && f@ == file_name && size_bytes == data.len()
    &&& forall|k: int|
        0 <= k < count ==> (#[trigger] msgs[k + 1] matches FileTransferMessage::Chunk { transfer_id, sequence, data: d }
            && transfer_id@ == id && sequence == k as u32 && d@ == chunk_of(data, k))
    &&& msgs[count as int + 1] matches FileTransferMessage::Complete { transfer_id } && transfer_id@ == id
}

fn copy_string(s: &String) -> (r: String)
    ensures
        r@ == s@,
{
    s.clone()
}

/// Chunk `k` starts inside the data exactly when `k` counts a chunk.
proof fn lemma_chunk_start(n: nat, k: nat)
    requires
        k < chunk_count(n),
    ensures
        k * CHUNK_SIZE < n,
{
    assert(k * 16384 < n) by (nonlinear_arith)
        requires
            k < (n + 16384 - 1) / 16384,
    ;
}

/// The number of chunks, computed without overflow.
fn count_chunks(n: usize) -> (c: usize)
    ensures
        c == chunk_count(n as nat),
{
    let q = n / CHUNK_SIZE;
    let r = n % CHUNK_SIZE;
    proof {
        assert(q * 16384 + r == n && 0 <= r < 16384) by (nonlinear_arith)
            requires
                q == n / 16384,
                r == n % 16384,
        ;
        assert((n + 16384 - 1) / 16384 == if r == 0 { q as int } else { q + 1 }) by (nonlinear_arith)
            requires
                q * 16384 + r == n,
                0 <= r < 16384,
        ;
    }
    if r == 0 {
        q
    } else {
        q + 1
    }
}

/// The messages that send `data` as file `file_name` under `transfer_id`.
pub fn transfer_messages(transfer_id: &String, file_name: &String, data: &[u8]) -> (r: Vec<FileTransferMessage>)
    ensures
        is_transfer(r@, transfer_id@, file_name@, data@),
{
    let n = data.len();
    let count = count_chunks(n);
    let mut r: Vec<FileTransferMessage> = Vec::new();
    r.push(FileTransferMessage::Offer { transfer_id: copy_string(transfer_id), file_name: copy_string(file_name), size_bytes: n as u64 });
    let mut off: usize = 0;
    let mut k: usize = 0;
    while k < count
        invariant
            n == data@.len(),
            count == chunk_count(n as nat),
            k <= count,
            k < count ==> off == k * CHUNK_SIZE,
            r@.len() == k + 1,
            r@[0] matches FileTransferMessage::Offer { transfer_id: t, file_name: f, size_bytes }
                && t@ == transfer_id@ && f@ == file_name@ && size_bytes == n,
            forall|j: int|
                0 <= j < k ==> (#[trigger] r@[j + 1] matches FileTransferMessage::Chunk { transfer_id: t, sequence, data: d }
                    && t@ == transfer_id@ && sequence == j as u32 && d@ == chunk_of(data@, j)),
        decreases count - k,
    {
        proof {
            lemma_chunk_start(n as nat, k as nat);
        }
        let end = if n - off > CHUNK_SIZE {
            off + CHUNK_SIZE
        } else {
            n
        };
        let chunk = slice_to_vec(&data[off..end]);
        #[verifier::truncate]
        let seq_no = k as u32;
        r.push(FileTransferMessage::Chunk { transfer_id: copy_string(transfer_id), sequence: seq_no, data: chunk });
        proof {
            assert((k + 1) * CHUNK_SIZE == off + CHUNK_SIZE) by (nonlinear_arith)
                requires
                    off == k * 16384,
            ;
            assert(chunk@ == chunk_of(data@, k as int));
            assert(r@[k as int + 1] matches FileTransferMessage::Chunk { transfer_id: t, sequence, data: d }
                && t@ == transfer_id@ && sequence == k as u32 && d@ == chunk_of(data@, k as int));
            if k + 1 < count {
                lemma_chunk_start(n as nat, (k + 1) as nat);
            }
        }
        off = end;
        k = k + 1;
    }
    r.push(FileTransferMessage::Complete { transfer_id: copy_string(transfer_id) });
    r
}

/// The name a file at `path` is offered under: the path's final component,
/// or `file` when it has none.
pub open spec fn offered_name(path: Seq<char>) -> Seq<char> {
    match path_file_name(path) {
        Some(n) => n,
        None => seq!['f', 'i', 'l', 'e'],
    }
}

/// The name a file at `path` is offered under.
pub fn offer_file_name(path: &str) -> (r: String)
    ensures
        r@ == offered_name(path@),
{
    match file_name(path) {
        Some(n) => n,
        None => {
            let mut r = String::new();
            push_str(&mut r, "file");
            proof {
                reveal_strlit("file");
            }
            assert(r@ =~= seq!['f', 'i', 'l', 'e']);
            r
        },
    }
}

/// The messages that send `data`, read from the file at `path`, under a
/// fresh random transfer id: the id, then the offer (under the file's
/// name), the chunks in order and the completion.
pub fn send_file_messages(path: &str, data: &[u8]) -> (r: (String, Vec<FileTransferMessage>))
    ensures
        exists|u: u128| r.0@ == #[trigger] uuid_text(u),
        is_transfer(r.1@, r.0@, offered_name(path@), data@),
{
    let name = offer_file_name(path);
    let u = new_uuid();
    let transfer_id = uuid_string(u);
    let msgs = transfer_messages(&transfer_id, &name, data);
    (transfer_id, msgs)
}

/// The name tried as the `n`-th alternative to `name`: its stem, then
/// ` (n)`, then its extension if it has one.
pub open spec fn candidate_name(name: Seq<char>, n: nat) -> Seq<char> {
    let stem = match path_file_stem(name) {
        Some(s) => s,
        None => Seq::empty(),
    };
    let numbered = stem + seq![' ', '('] + decimal(n) + seq![')'];
    match path_extension(name) {
        Some(ext) => numbered + seq!['.'] + ext,
        None => numbered,
    }
}

/// `path` is where a file named `name` may be stored in `dir`: under its own
/// name, or under one of the numbered alternatives `1..10000`.
pub open spec fn is_destination(dir: Seq<char>, name: Seq<char>, path: Seq<char>) -> bool {
    ||| path == joined_path(dir, name)
    ||| exists|n: nat| 1 <= n < 10000 && path == joined_path(dir, #[trigger] candidate_name(name, n))
}

fn numbered_name(stem: &String, ext: &Option<String>, n: u64) -> (r: String)
    ensures
        r@ == {
            let numbered = stem@ + seq![' ', '('] + decimal(n as nat) + seq![')'];
            match opt_view(*ext) {
                Some(e) => numbered + seq!['.'] + e,
                None => numbered,
            }
        },
{
    let mut r = stem.clone();
    push_char(&mut r, ' ');
    push_char(&mut r, '(');
    push_decimal(&mut r, n);
    push_char(&mut r, ')');
    match ext {
        Some(e) => {
            push_char(&mut r, '.');
            push_str(&mut r, e.as_str());
        },
        None => {},
    }
    r
}

/// `n` is the first numbered alternative in `1..10000` that `taken` marks
/// free.
pub open spec fn first_free(taken: Seq<bool>, n: int) -> bool {
    &&& 1 <= n < 10000
    &&& n < taken.len()
    &&& !taken[n]
    &&& forall|m: int| 1 <= m < n ==> taken[m]
}

/// Where a file named `name` goes in `dir`, given for the name itself
/// (`taken[0]`) and for each numbered alternative `n` (`taken[n]`) whether
/// that path is already taken: the name itself if free, else the first free
/// alternative, else (all taken) the name itself.
pub open spec fn destination_choice(dir: Seq<char>, name: Seq<char>, taken: Seq<bool>) -> Seq<char> {
    if !taken[0] {
        joined_path(dir, name)
    } else if exists|n: int| first_free(taken, n) {
        joined_path(dir, candidate_name(name, (choose|n: int| first_free(taken, n)) as nat))
    } else {
        joined_path(dir, name)
    }
}

proof fn lemma_first_free_unique(taken: Seq<bool>, a: int, b: int)
    requires
        first_free(taken, a),
        first_free(taken, b),
    ensures
        a == b,
{
}

/// Every choice is a destination for the name.
pub proof fn lemma_choice_is_destination(dir: Seq<char>, name: Seq<char>, taken: Seq<bool>)
    requires
        taken.len() == 10000,
    ensures
        is_destination(dir, name, destination_choice(dir, name, taken)),
{
    if taken[0] && exists|n: int| first_free(taken, n) {
        let n = choose|n: int| first_free(taken, n);
        assert(1 <= (n as nat) < 10000 && destination_choice(dir, name, taken) == joined_path(dir, candidate_name(name, n as nat)));
    }
}

/// The destination is the first candidate not taken: the name itself when
/// it is free, else the numbered alternative `n` when the name and every
/// alternative before `n` are taken and `n` is not, and the name itself only
/// when every candidate is taken. So no taken candidate is chosen while a
/// free one exists.
pub proof fn lemma_choice_is_first_free(dir: Seq<char>, name: Seq<char>, taken: Seq<bool>, n: int)
    requires
        taken.len() == 10000,
    ensures
        !taken[0] ==> destination_choice(dir, name, taken) == joined_path(dir, name),
        1 <= n < 10000 && taken[0] && !taken[n] && (forall|m: int| 1 <= m < n ==> taken[m])
            ==> destination_choice(dir, name, taken) == joined_path(dir, candidate_name(name, n as nat)),
        (forall|k: int| 0 <= k < 10000 ==> taken[k]) ==> destination_choice(dir, name, taken) == joined_path(dir, name),
{
    if 1 <= n < 10000 && taken[0] && !taken[n] && (forall|m: int| 1 <= m < n ==> taken[m]) {
        assert(first_free(taken, n));
        let k = choose|k: int| first_free(taken, k);
        lemma_first_free_unique(taken, n, k);
    }
    if forall|k: int| 0 <= k < 10000 ==> taken[k] {
        assert(!exists|k: int| first_free(taken, k));
    }
}

/// The destination for `file_name` in `dir`, given which of the candidate
/// paths are taken (`taken[0]` for the name itself, `taken[n]` for the
/// `n`-th numbered alternative): the name itself if free, else the first
/// free alternative, else the name itself.
pub fn choose_destination(dir: &str, file_name: &str, taken: &Vec<bool>) -> (r: String)
    requires
        taken@.len() == 10000,
    ensures
        r@ == destination_choice(dir@, file_name@, taken@),
{
    if !taken[0] {
        return path_join(dir, file_name);
    }
    let stem = match file_stem(file_name) {
        Some(s) => s,
        None => String::new(),
    };
    let ext = file_extension(file_name);
    let mut n: usize = 1;
    while n < 10000
        invariant
            1 <= n <= 10000,
            taken@.len() == 10000,
            taken@[0],
            forall|m: int| 1 <= m < n ==> taken@[m],
            stem@ == match path_file_stem(file_name@) {
                Some(s) => s,
                None => Seq::<char>::empty(),
            },
            opt_view(ext) == path_extension(file_name@),
        decreases 10000 - n,
    {
        if !taken[n] {
            let name = numbered_name(&stem, &ext, n as u64);
            assert(name@ == candidate_name(file_name@, n as nat));
            proof {
                assert(first_free(taken@, n as int));
                let k = choose|k: int| first_free(taken@, k);
                lemma_first_free_unique(taken@, n as int, k);
            }
            return path_join(dir, name.as_str());
        }
        n = n + 1;
    }
    assert(!exists|k: int| first_free(taken@, k));
    path_join(dir, file_name)
}

/// Where to store an incoming file named `file_name` in `dir` without
/// clobbering an existing file: the name itself if free, else the first free
/// numbered alternative, and the name itself if all of them are taken. The
/// disk is probed in that order, up to the first free path;
/// `choose_destination` decides on the answers.
pub fn unique_destination_path(dir: &str, file_name: &str) -> (r: String)
    ensures
        exists|taken: Seq<bool>| taken.len() == 10000 && r@ == #[trigger] destination_choice(dir@, file_name@, taken),
        is_destination(dir@, file_name@, r@),
{
    let mut taken: Vec<bool> = Vec::new();
    let first = path_join(dir, file_name);
    let mut found_free = !path_exists(first.as_str());
    taken.push(!found_free);
    let stem = match file_stem(file_name) {
        Some(s) => s,
        None => String::new(),
    };
    let ext = file_extension(file_name);
    let mut n: u64 = 1;
    while n < 10000
        invariant
            1 <= n <= 10000,
            taken@.len() == n,
        decreases 10000 - n,
    {
        if found_free {
            taken.push(false);
        } else {
            let name = numbered_name(&stem, &ext, n);
            let c = path_join(dir, name.as_str());
            let t = path_exists(c.as_str());
            taken.push(t);
            found_free = !t;
        }
        n = n + 1;
    }
    let r = choose_destination(dir, file_name, &taken);
    proof {
        lemma_choice_is_destination(dir@, file_name@, taken@);
    }
    r
}

/// What the receiving host does on disk for one incoming message.
#[derive(Debug)]
pub enum ReceiveAction {
    /// Create the file at `path` for a new transfer (a file still open under
    /// the same id is closed as it stands).
    Create { transfer_id: String, path: String },
    /// Append `data` to the transfer's file.
    Write { transfer_id: String, data: Vec<u8> },
    /// The transfer is complete: flush and close its file.
    Finish { transfer_id: String },
    /// The transfer was cancelled: close and delete its file.
    Discard { transfer_id: String },
    /// Nothing to do.
    Ignore,
}

/// The bytes an action appends to a file.
pub open spec fn action_bytes(a: ReceiveAction) -> Seq<u8> {
    match a {
        ReceiveAction::Write { data, .. } => data@,
        _ => Seq::empty(),
    }
}

/// All bytes appended by `actions`, in order.
pub open spec fn written(actions: Seq<ReceiveAction>) -> Seq<u8>
    decreases actions.len(),
{
    if actions.len() == 0 {
        Seq::empty()
    } else {
        written(actions.drop_last()) + action_bytes(actions.last())
    }
}

/// One message's effect on the set of transfers in progress (`open`
/// before, `next` after) and the action taken, for files stored in `dest`.
pub open spec fn receive_step(
    dest: Seq<char>,
    open: Set<Seq<char>>,
    msg: FileTransferMessage,
    next: Set<Seq<char>>,
    a: ReceiveAction,
) -> bool {
    match msg {
        FileTransferMessage::Offer { transfer_id, file_name, .. } => {
            &&& next == open.insert(transfer_id@)
            &&& a matches ReceiveAction::Create { transfer_id: t, path }
            &&& t == transfer_id
            &&& is_destination(dest, file_name@, path@)
        },
        FileTransferMessage::Chunk { transfer_id, data, .. } => {
            &&& next == open
            &&& a == if open.contains(transfer_id@) {
                ReceiveAction::Write { transfer_id, data }
            } else {
                ReceiveAction::Ignore
            }
        },
        FileTransferMessage::Complete { transfer_id } => {
            &&& next == open.remove(transfer_id@)
            &&& a == if open.contains(transfer_id@) {
                ReceiveAction::Finish { transfer_id }
            } else {
                ReceiveAction::Ignore
            }
        },
        FileTransferMessage::Cancel { transfer_id } => {
            &&& next == open.remove(transfer_id@)
            &&& a == if open.contains(transfer_id@) {
                ReceiveAction::Discard { transfer_id }
            } else {
                ReceiveAction::Ignore
            }
        },
        FileTransferMessage::Accept { .. } | FileTransferMessage::Reject { .. } => {
            next == open && a is Ignore
        },
    }
}

/// The host side of file transfer: which transfers are in progress, and
/// where their files go.
pub struct FileReceiver {
    dest_dir: String,
    in_progress: StringHashSet,
}

impl View for FileReceiver {
    type V = Set<Seq<char>>;

    closed spec fn view(&self) -> Set<Seq<char>> {
        self.in_progress@
    }
}

impl FileReceiver {
    /// The directory incoming files are stored in.
    pub closed spec fn dest(&self) -> Seq<char> {
        self.dest_dir@
    }

    /// The directory incoming files are stored in.
    pub fn dest_dir(&self) -> (r: &str)
        ensures
            r@ == self.dest(),
    {
        self.dest_dir.as_str()
    }

    /// A receiver storing files in `dest_dir`, with no transfer in progress.
    pub fn new(dest_dir: String) -> (r: FileReceiver)
        ensures
            r.dest() == dest_dir@,
            r@ == Set::<Seq<char>>::empty(),
    {
        FileReceiver { dest_dir, in_progress: StringHashSet::new() }
    }

    /// Whether a transfer is in progress under `transfer_id`.
    pub fn is_receiving(&self, transfer_id: &str) -> (b: bool)
        ensures
            b == self@.contains(transfer_id@),
    {
        self.in_progress.contains(transfer_id)
    }

    /// Handles one incoming message: what to do on disk, and which transfers
    /// are then in progress.
    pub fn handle(&mut self, msg: FileTransferMessage) -> (a: ReceiveAction)
        ensures
            final(self).dest() == old(self).dest(),
            receive_step(old(self).dest(), old(self)@, msg, final(self)@, a),
    {
        match msg {
            FileTransferMessage::Offer { transfer_id, file_name, .. } => {
                let path = unique_destination_path(self.dest_dir.as_str(), file_name.as_str());
                self.in_progress.insert(transfer_id.clone());
                ReceiveAction::Create { transfer_id, path }
            },
            FileTransferMessage::Chunk { transfer_id, data, .. } => {
                if self.in_progress.contains(transfer_id.as_str()) {
                    ReceiveAction::Write { transfer_id, data }
                } else {
                    ReceiveAction::Ignore
                }
            },
            FileTransferMessage::Complete { transfer_id } => {
                if self.in_progress.remove(transfer_id.as_str()) {
                    ReceiveAction::Finish { transfer_id }
                } else {
                    ReceiveAction::Ignore
                }
            },
            FileTransferMessage::Cancel { transfer_id } => {
                if self.in_progress.remove(transfer_id.as_str()) {
                    ReceiveAction::Discard { transfer_id }
                } else {
                    ReceiveAction::Ignore
                }
            },
            FileTransferMessage::Accept { .. } | FileTransferMessage::Reject { .. } => ReceiveAction::Ignore,
        }
    }
}

/// Where the first `j` chunks of `n` bytes end.
pub open spec fn sent_len(n: nat, j: nat) -> int {
    if j * CHUNK_SIZE <= n {
        j * CHUNK_SIZE
    } else {
        n as int
    }
}

/// The offer and the first `j` chunks of a transfer carry the first
/// `sent_len` bytes of the file.
proof fn lemma_prefix_bytes(msgs: Seq<FileTransferMessage>, id: Seq<char>, name: Seq<char>, data: Seq<u8>, j: nat)
    requires
        is_transfer(msgs, id, name, data),
        j <= chunk_count(data.len()),
    ensures
        chunk_bytes(msgs.take(j as int + 1)) == data.take(sent_len(data.len(), j)),
    decreases j,
{
    let p = msgs.take(j as int + 1);
    if j == 0 {
        assert(p.drop_last() =~= Seq::<FileTransferMessage>::empty());
        assert(p.last() == msgs[0]);
        assert(chunk_bytes(p.drop_last()) =~= Seq::<u8>::empty());
        assert(msg_bytes(p.last()) =~= Seq::<u8>::empty());
        assert(chunk_bytes(p) =~= Seq::<u8>::empty());
        assert(data.take(0) =~= Seq::<u8>::empty());
    } else {
        let k = (j - 1) as nat;
        lemma_prefix_bytes(msgs, id, name, data, k);
        lemma_chunk_start(data.len(), k);
        assert(p.drop_last() =~= msgs.take(k as int + 1));
        assert(p.last() == msgs[k as int + 1]);
        let end = sent_len(data.len(), j);
        assert(sent_len(data.len(), k) == k * CHUNK_SIZE);
        assert(msg_bytes(p.last()) == chunk_of(data, k as int));
        assert(chunk_of(data, k as int) == data.subrange(k * CHUNK_SIZE, end));
        assert(data.take(k * CHUNK_SIZE) + data.subrange(k * CHUNK_SIZE, end) =~= data.take(end));
        assert(chunk_bytes(p) == chunk_bytes(p.drop_last()) + msg_bytes(p.last()));
    }
}

/// A transfer's chunks, put together in order, are the file: what the
/// controller sends is exactly the bytes it read.
pub proof fn lemma_transfer_carries_data(msgs: Seq<FileTransferMessage>, id: Seq<char>, name: Seq<char>, data: Seq<u8>)
    requires
        is_transfer(msgs, id, name, data),
    ensures
        chunk_bytes(msgs) == data,
{
    let n = data.len();
    let c = chunk_count(n);
    lemma_prefix_bytes(msgs, id, name, data, c);
    assert(c * 16384 >= n) by (nonlinear_arith)
        requires
            c == (n + 16384 - 1) / 16384,
    ;
    assert(msgs.drop_last() =~= msgs.take(c as int + 1));
    assert(data.take(n as int) =~= data);
}

/// Two runs whose elements carry the same bytes, one by one, carry the same
/// bytes in all.
proof fn lemma_same_bytes(msgs: Seq<FileTransferMessage>, actions: Seq<ReceiveAction>)
    requires
        actions.len() == msgs.len(),
        forall|i: int| 0 <= i < msgs.len() ==> #[trigger] action_bytes(actions[i]) == msg_bytes(msgs[i]),
    ensures
        written(actions) == chunk_bytes(msgs),
    decreases msgs.len(),
{
    if msgs.len() > 0 {
        let m = msgs.drop_last();
        let a = actions.drop_last();
        assert forall|i: int| 0 <= i < m.len() implies #[trigger] action_bytes(a[i]) == msg_bytes(m[i]) by {
            assert(action_bytes(actions[i]) == msg_bytes(msgs[i]));
        }
        lemma_same_bytes(m, a);
        assert(action_bytes(actions[msgs.len() - 1]) == msg_bytes(msgs[msgs.len() - 1]));
    }
}

/// While a transfer's chunks arrive, it stays open and nothing else changes.
proof fn lemma_open_during_chunks(
    dest: Seq<char>,
    msgs: Seq<FileTransferMessage>,
    id: Seq<char>,
    name: Seq<char>,
    data: Seq<u8>,
    states: Seq<Set<Seq<char>>>,
    actions: Seq<ReceiveAction>,
    i: int,
)
    requires
        is_transfer(msgs, id, name, data),
        states.len() == msgs.len() + 1,
        actions.len() == msgs.len(),
        forall|j: int| 0 <= j < msgs.len() ==> receive_step(dest, states[j], msgs[j], states[j + 1], #[trigger] actions[j]),
        1 <= i <= chunk_count(data.len()) + 1,
    ensures
        states[i] == states[0].insert(id),
    decreases i,
{
    assert(receive_step(dest, states[i - 1], msgs[i - 1], states[i], actions[i - 1]));
    if i > 1 {
        lemma_open_during_chunks(dest, msgs, id, name, data, states, actions, i - 1);
        let k = i - 2;
        assert(msgs[k + 1] is Chunk);
    }
}

/// Receiving a whole transfer writes exactly the file that was sent: the
/// host creates a destination file for it, appends every chunk in order,
/// finishes it, and the transfer is then no longer in progress. This holds
/// whatever transfers were in progress before.
pub proof fn lemma_transfer_is_received(
    dest: Seq<char>,
    msgs: Seq<FileTransferMessage>,
    id: Seq<char>,
    name: Seq<char>,
    data: Seq<u8>,
    states: Seq<Set<Seq<char>>>,
    actions: Seq<ReceiveAction>,
)
    requires
        is_transfer(msgs, id, name, data),
        states.len() == msgs.len() + 1,
        actions.len() == msgs.len(),
        forall|j: int| 0 <= j < msgs.len() ==> receive_step(dest, states[j], msgs[j], states[j + 1], #[trigger] actions[j]),
    ensures
        actions[0] matches ReceiveAction::Create { transfer_id, path } && transfer_id@ == id && is_destination(dest, name, path@),
        actions.last() matches ReceiveAction::Finish { transfer_id } && transfer_id@ == id,
        written(actions) == data,
        states.last() == states[0].remove(id),
{
    let c = chunk_count(data.len());
    assert(receive_step(dest, states[0], msgs[0], states[1], actions[0]));
    assert forall|i: int| 0 <= i < msgs.len() implies #[trigger] action_bytes(actions[i]) == msg_bytes(msgs[i]) by {
        assert(receive_step(dest, states[i], msgs[i], states[i + 1], actions[i]));
        if 1 <= i <= c {
            lemma_open_during_chunks(dest, msgs, id, name, data, states, actions, i);
            let k = i - 1;
            assert(msgs[k + 1] is Chunk);
        }
    }
    lemma_same_bytes(msgs, actions);
    lemma_transfer_carries_data(msgs, id, name, data);
    lemma_open_during_chunks(dest, msgs, id, name, data, states, actions, c as int + 1);
    assert(receive_step(dest, states[c as int + 1], msgs[c as int + 1], states[c as int + 2], actions[c as int + 1]));
    assert(states[c as int + 2] =~= states[0].remove(id));
}

} // verus!
