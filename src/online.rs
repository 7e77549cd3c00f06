//! The remote session: two clients in one room take turns, and each hands
//! the turn over by pushing the whole game state to a server, which the
//! other client receives through a blocking wait.
//!
//! A winning move is pushed like any other, so the opponent's wait resolves
//! on the final state and both clients see the winner.
use vstd::prelude::*;
use vstd::string::StringExecFns;
use crate::board::{
    apply_move, cell, check_win, col_of, empty_field, in_range, is_empty_field, row_of, updated,
    wins, Field, MoveError, Square,
};

verus! {

/// Joins two parts of a server address.
pub fn to_url(url: [&str; 2]) -> (r: String)
    ensures
        r@ == url@[0]@ + url@[1]@,
{
    let mut s = String::from_str(url[0]);
    s.append(url[1]);
    s
}

/// A player: a name and the mark they place.
#[derive(Clone, Debug)]
pub struct User {
    pub name: String,
    pub square: Square,
}

/// Two players are the same when both name and mark agree.
pub open spec fn same_user(a: User, b: User) -> bool {
    a.name@ == b.name@ && a.square == b.square
}

impl PartialEq for User {
    fn eq(&self, o: &User) -> (r: bool) {
        self.name == o.name && self.square == o.square
    }
}

impl vstd::std_specs::cmp::PartialEqSpecImpl for User {
    open spec fn obeys_eq_spec() -> bool {
        true
    }

    open spec fn eq_spec(&self, o: &User) -> bool {
        same_user(*self, *o)
    }
}

impl User {
    pub fn new(name: String, square: Square) -> (u: User)
        ensures
            u.name == name,
            u.square == square,
    {
        User { name, square }
    }

    /// A copy of this player.
    pub fn duplicate(&self) -> (u: User)
        ensures
            u == *self,
    {
        User { name: self.name.clone(), square: self.square }
    }
}

/// A room on the server: its name and its two players, `user1` the one who
/// created it and `user2` the one who entered it.
#[derive(Clone, Debug)]
pub struct Room {
    pub name: String,
    pub user1: User,
    pub user2: User,
}

impl Room {
    pub fn new(name: String, user1: User, user2: User) -> (r: Room)
        ensures
            r.name == name,
            r.user1 == user1,
            r.user2 == user2,
    {
        Room { name, user1, user2 }
    }
}

/// The two players of a room can be told apart.
pub open spec fn distinct_users(room: Room) -> bool {
    !same_user(room.user1, room.user2)
}

/// The player of `room` who is not `me`: `user2` for `user1`, else `user1`.
pub open spec fn opponent(room: Room, me: User) -> User {
    if same_user(room.user1, me) {
        room.user2
    } else {
        room.user1
    }
}

/// What a client sends to create or enter a room.
#[derive(Clone, Debug)]
pub struct RoomInfo {
    pub name: String,
    pub user: User,
}

impl RoomInfo {
    pub fn new(room_name: &String, user_name: &String, square: Square) -> (r: RoomInfo)
        ensures
            r.name@ == room_name@,
            r.user.name@ == user_name@,
            r.user.square == square,
    {
        RoomInfo { name: room_name.clone(), user: User::new(user_name.clone(), square) }
    }
}

/// The shared game state: the board, the player to move and, once the game
/// is over, the winner.
#[derive(Clone, Debug)]
pub struct OnlineGame {
    pub field: Field,
    pub turn: User,
    pub winner: Option<User>,
}

impl OnlineGame {
    /// An empty board with `user` to move and no winner.
    pub fn new(user: User) -> (g: OnlineGame)
        ensures
            is_empty_field(g.field),
            g.turn == user,
            g.winner is None,
    {
        OnlineGame { field: empty_field(), turn: user, winner: None }
    }

    pub fn field(&self) -> (r: &Field)
        ensures
            *r == self.field,
    {
        &self.field
    }

    /// The mark of the player to move.
    pub fn turn_square(&self) -> (s: Square)
        ensures
            s == self.turn.square,
    {
        self.turn.square
    }
}

/// Why a remote session could not start or had to stop.
#[derive(Clone, Copy, Debug, PartialEq, Eq, Structural)]
pub enum SessionError {
    /// The server created or entered no room (name taken, room missing or full).
    RoomError,
    /// A request did not reach the server or its answer could not be read.
    TransportError,
    /// An answer lacked the payload it must carry.
    ProtocolViolation,
    /// The server refused the pushed game state.
    SyncRejected,
}

/// Whether a client creates a room or enters one.
#[derive(Clone, Copy, Debug, PartialEq, Eq, Structural)]
pub enum JoinKind {
    Create,
    Enter,
}

/// The mark of the player who joins in `kind`: the creator plays `Maru`.
pub open spec fn join_square(kind: JoinKind) -> Square {
    match kind {
        JoinKind::Create => Square::Maru,
        JoinKind::Enter => Square::Batu,
    }
}

/// The request that creates or enters room `room_name` as `user_name`.
pub fn join_request(kind: JoinKind, room_name: &String, user_name: &String) -> (r: RoomInfo)
    ensures
        r.name@ == room_name@,
        r.user.name@ == user_name@,
        r.user.square == join_square(kind),
{
    let square = match kind {
        JoinKind::Create => Square::Maru,
        JoinKind::Enter => Square::Batu,
    };
    RoomInfo::new(room_name, user_name, square)
}

/// What a session does next.
#[derive(Clone, Copy, Debug, PartialEq, Eq, Structural)]
pub enum Action {
    /// Wait for the opponent's move and hand the answer to `receive`.
    Wait,
    /// Read a move and hand it to `play`.
    Play,
    /// Push the game state and hand the acknowledgement to `synced`.
    Sync,
    /// The game is over.
    Finish,
}

/// A client's side of a remote game: its replica of the game state, the
/// room, which of the room's players it is, and whether a move of its own
/// awaits the server's acknowledgement.
#[derive(Clone, Debug)]
pub struct Online {
    pub game: OnlineGame,
    pub room: Room,
    pub me: User,
    pub pending: bool,
}

/// The next step of session `o`: an unacknowledged move is pushed first; a
/// recorded winner ends the game; otherwise the session waits while another
/// player is to move, and plays when it is itself.
pub open spec fn next_action_of(o: Online) -> Action {
    if o.pending {
        Action::Sync
    } else if o.game.winner is Some {
        Action::Finish
    } else if !same_user(o.game.turn, o.me) {
        Action::Wait
    } else {
        Action::Play
    }
}

/// The session that starts in `room` as `me`: an empty board, the room's
/// creator to move, nothing pushed yet.
pub open spec fn fresh(room: Room, me: User, o: Online) -> bool {
    &&& is_empty_field(o.game.field)
    &&& o.game.turn == room.user1
    &&& o.game.winner is None
    &&& o.room == room
    &&& o.me == me
    &&& !o.pending
}

/// `o2` is `o` after the state `g`, returned by a wait, replaced its replica.
pub open spec fn received(o: Online, g: OnlineGame, o2: Online) -> bool {
    o2 == Online { game: g, ..o }
}

/// `o2` is `o` after its own mark was placed at `num`, with result `r`: the
/// mark goes on the board; a win records `me` as the winner and keeps the
/// turn, any other move hands the turn to the opponent; either way the new
/// state awaits its push. A refused move changes nothing.
pub open spec fn played(o: Online, num: int, o2: Online, r: Result<bool, MoveError>) -> bool {
    &&& r == Err::<bool, MoveError>(MoveError::OutOfRange) <==> !in_range(num)
    &&& r == Err::<bool, MoveError>(MoveError::Occupied) <==> in_range(num) && cell(
        o.game.field,
        row_of(num),
        col_of(num),
    ) is Some
    &&& r is Err ==> o2 == o
    &&& r is Ok ==> {
        &&& updated(o.game.field, o2.game.field, row_of(num), col_of(num), Some(o.me.square))
        &&& r == Ok::<bool, MoveError>(wins(o2.game.field, o.me.square))
        &&& o2.room == o.room
        &&& o2.me == o.me
        &&& o2.pending
        &&& r == Ok::<bool, MoveError>(true) ==> o2.game.turn == o.game.turn && o2.game.winner
            == Some(o.game.turn)
        &&& r == Ok::<bool, MoveError>(false) ==> o2.game.turn == opponent(o.room, o.me)
            && o2.game.winner == o.game.winner
    }
}

/// Starts a session from the server's answer to a create or enter request:
/// no room in the answer is `RoomError`; else the session plays as the
/// room's creator after a create, as the second player after an enter.
pub fn join(kind: JoinKind, data: Option<Room>) -> (r: Result<Online, SessionError>)
    ensures
        data is None <==> r == Err::<Online, SessionError>(SessionError::RoomError),
        data is Some ==> r is Ok,
        r is Ok ==> fresh(
            data->Some_0,
            match kind {
                JoinKind::Create => data->Some_0.user1,
                JoinKind::Enter => data->Some_0.user2,
            },
            r->Ok_0,
        ),
{
    match data {
        None => Err(SessionError::RoomError),
        Some(room) => {
            let me = match kind {
                JoinKind::Create => room.user1.duplicate(),
                JoinKind::Enter => room.user2.duplicate(),
            };
            Ok(Online::new(room, me))
        },
    }
}

impl Online {
    /// A session in `room` as `me`, before any move.
    pub fn new(room: Room, me: User) -> (o: Online)
        ensures
            fresh(room, me, o),
    {
        let first = room.user1.duplicate();
        Online { game: OnlineGame::new(first), room, me, pending: false }
    }

    pub fn game(&self) -> (r: &OnlineGame)
        ensures
            *r == self.game,
    {
        &self.game
    }

    pub fn room(&self) -> (r: &Room)
        ensures
            *r == self.room,
    {
        &self.room
    }

    /// What this session does next.
    pub fn next_action(&self) -> (a: Action)
        ensures
            a == next_action_of(*self),
    {
        if self.pending {
            Action::Sync
        } else if self.game.winner.is_some() {
            Action::Finish
        } else if self.game.turn != self.me {
            Action::Wait
        } else {
            Action::Play
        }
    }

    /// Takes the server's answer to a wait: its game state replaces the
    /// replica; an answer without one is `ProtocolViolation` and changes
    /// nothing.
    pub fn receive(&mut self, data: Option<OnlineGame>) -> (r: Result<(), SessionError>)
        ensures
            data is None <==> r == Err::<(), SessionError>(SessionError::ProtocolViolation),
            data is Some ==> r is Ok && received(*old(self), data->Some_0, *final(self)),
            r is Err ==> *final(self) == *old(self),
    {
        match data {
            None => Err(SessionError::ProtocolViolation),
            Some(g) => {
                self.game = g;
                Ok(())
            },
        }
    }

    /// Places this player's mark at `num`. Only allowed on this player's turn.
    pub fn play(&mut self, num: usize) -> (r: Result<bool, MoveError>)
        requires
            next_action_of(*old(self)) == Action::Play,
        ensures
            played(*old(self), num as int, *final(self), r),
    {
        let square = self.game.turn_square();
        match apply_move(&mut self.game.field, num, square) {
            Err(e) => Err(e),
            Ok(()) => {
                let won = check_win(&self.game.field, square);
                if won {
                    self.game.winner = Some(self.game.turn.duplicate());
                } else if self.room.user1 == self.me {
                    self.game.turn = self.room.user2.duplicate();
                } else {
                    self.game.turn = self.room.user1.duplicate();
                }
                self.pending = true;
                Ok(won)
            },
        }
    }

    /// Takes the server's acknowledgement of a pushed state: `true` commits
    /// the move; `false` is `SyncRejected` and a missing one
    /// `ProtocolViolation`, both fatal, and neither changes the session.
    pub fn synced(&mut self, ack: Option<bool>) -> (r: Result<(), SessionError>)
        ensures
            ack == Some(true) <==> r is Ok,
            ack == Some(false) <==> r == Err::<(), SessionError>(SessionError::SyncRejected),
            ack is None <==> r == Err::<(), SessionError>(SessionError::ProtocolViolation),
            r is Ok ==> *final(self) == (Online { pending: false, ..*old(self) }),
            r is Err ==> *final(self) == *old(self),
    {
        match ack {
            Some(true) => {
                self.pending = false;
                Ok(())
            },
            Some(false) => Err(SessionError::SyncRejected),
            None => Err(SessionError::ProtocolViolation),
        }
    }
}

/// `o` plays as one of the two players of its room.
pub open spec fn seated(o: Online) -> bool {
    same_user(o.me, o.room.user1) || same_user(o.me, o.room.user2)
}

/// The turn passes only through a pushed state. Let `a` and `b` be the
/// sessions of the two players of one room, holding the same state with
/// `a` to move. Then `b` waits; a move of `a` that does not win hands the
/// turn to `b` in a state that `a` must push before anything else; and once
/// `b` receives that state, `b` plays.
pub proof fn lemma_handover_order(
    a: Online,
    b: Online,
    num: int,
    a2: Online,
    r: Result<bool, MoveError>,
    b2: Online,
)
    requires
        distinct_users(a.room),
        seated(a),
        b.room == a.room,
        b.me == opponent(a.room, a.me),
        b.game == a.game,
        !a.pending,
        !b.pending,
        next_action_of(a) == Action::Play,
        played(a, num, a2, r),
        r == Ok::<bool, MoveError>(false),
        received(b, a2.game, b2),
    ensures
        next_action_of(b) == Action::Wait,
        next_action_of(a2) == Action::Sync,
        same_user(a2.game.turn, b.me),
        next_action_of(b2) == Action::Play,
{
}

/// A wait ends in a move only once the turn has been handed over: a session
/// that waits and receives a state in which nobody has won and another
/// player is to move waits again.
pub proof fn lemma_wait_until_handed(b: Online, g: OnlineGame, b2: Online)
    requires
        next_action_of(b) == Action::Wait,
        received(b, g, b2),
        g.winner is None,
        !same_user(g.turn, b.me),
    ensures
        next_action_of(b2) == Action::Wait,
{
}

/// A winning move ends the game for both players: the winner pushes the
/// final state and then finishes, and the opponent who receives it finishes
/// too.
pub proof fn lemma_win_ends_both(
    a: Online,
    num: int,
    a2: Online,
    b: Online,
    b2: Online,
)
    requires
        next_action_of(a) == Action::Play,
        played(a, num, a2, Ok::<bool, MoveError>(true)),
        !b.pending,
        received(b, a2.game, b2),
    ensures
        next_action_of(a2) == Action::Sync,
        next_action_of(Online { pending: false, ..a2 }) == Action::Finish,
        next_action_of(b2) == Action::Finish,
{
}

} // verus!
