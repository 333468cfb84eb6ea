//! The steps of the room handlers. Each handler is a machine: it starts from the
//! request, names the database call to make, and takes that call's outcome as
//! its next event, until it answers.
use vstd::prelude::*;

use crate::dtos::{
    opt_text, room_report, ChatRoomsResponse, CreateRoomRequest, CreateRoomResponse,
    roomMemberResponse, RoomMembersRequest,
};
use crate::errors::{
    bad_request_of, bad_request_with, server_error_of, server_error_with, ErrorMessage,
    HttpError, STATUS_BAD_REQUEST,
};
use crate::models::{ChatRoom, DbError, GroupChatroomWithMembership, RoomMembers, User};

verus! {

/// The status text of every successful answer.
pub open spec fn success() -> Seq<char> {
    "success"@
}

/// A successful room answer carrying this room.
pub open spec fn room_answer(r: Result<CreateRoomResponse, HttpError>, room: ChatRoom) -> bool {
    r matches Ok(resp) && resp.status@ == success() && resp.data == room
}

/// The answer for a room.
fn answer_room(room: ChatRoom) -> (res: Result<CreateRoomResponse, HttpError>)
    ensures
        room_answer(res, room),
{
    Ok(CreateRoomResponse { status: String::from_str("success"), data: room })
}

// ---------------------------------------------------------------------------
// A direct room between the caller and a recipient.

/// Where the direct-room machine stands.
pub enum DirectRoomPhase {
    /// Waiting for the lookup of the pair's room.
    AwaitLookup,
    /// Waiting for the new room.
    AwaitCreate,
    /// Waiting for the caller to be added to the new room.
    AwaitAddCreator { room: ChatRoom },
    /// Waiting for the recipient's row.
    AwaitRecipient { room: ChatRoom },
    /// Waiting for the recipient to be added to the new room.
    AwaitAddRecipient { room: ChatRoom },
    /// Answered.
    Finished,
}

/// The direct-room machine: the caller, the recipient asked for, and the phase.
pub struct DirectRoomFlow {
    pub creator: u128,
    pub recipient: Option<u128>,
    pub phase: DirectRoomPhase,
}

/// The outcome of the last database call.
pub enum DirectRoomEvent {
    Looked(Result<Option<ChatRoom>, DbError>),
    Created(Result<ChatRoom, DbError>),
    Added(Result<RoomMembers, DbError>),
    RecipientLooked(Result<Option<User>, DbError>),
}

/// What to do next.
pub enum DirectRoomAction {
    /// Look up the direct room of the pair.
    FindDirectRoom { creator: u128, recipient: Option<u128> },
    /// Create the direct room of the pair.
    CreateDirectRoom { creator: u128, recipient: Option<u128> },
    /// Add a member to a room.
    AddMember { room_id: u128, user_id: Option<u128> },
    /// Look up a user.
    FindUser { user_id: Option<u128> },
    /// Answer the request.
    Respond(Result<CreateRoomResponse, HttpError>),
}

impl DirectRoomFlow {
    /// How far the machine has come; every step raises it.
    pub open spec fn rank(&self) -> int {
        match self.phase {
            DirectRoomPhase::AwaitLookup => 0,
            DirectRoomPhase::AwaitCreate => 1,
            DirectRoomPhase::AwaitAddCreator { .. } => 2,
            DirectRoomPhase::AwaitRecipient { .. } => 3,
            DirectRoomPhase::AwaitAddRecipient { .. } => 4,
            DirectRoomPhase::Finished => 5,
        }
    }

    /// The event is the outcome of the call that the phase waits for.
    pub open spec fn accepts(&self, ev: DirectRoomEvent) -> bool {
        match self.phase {
            DirectRoomPhase::AwaitLookup => ev is Looked,
            DirectRoomPhase::AwaitCreate => ev is Created,
            DirectRoomPhase::AwaitAddCreator { .. } => ev is Added,
            DirectRoomPhase::AwaitRecipient { .. } => ev is RecipientLooked,
            DirectRoomPhase::AwaitAddRecipient { .. } => ev is Added,
            DirectRoomPhase::Finished => false,
        }
    }

    /// The machine for a request from `creator`: a body that breaks the room
    /// rules is answered "bad request: invalid input"; otherwise the pair's room
    /// is looked up.
    pub fn start(creator: u128, body: &CreateRoomRequest) -> (res: (DirectRoomFlow, DirectRoomAction))
        ensures
            res.0.creator == creator,
            res.0.recipient == body.recipient,
            room_report(opt_text(body.room_name), opt_text(body.description)).len() == 0 ==> {
                &&& res.0.phase is AwaitLookup
                &&& res.1 == (DirectRoomAction::FindDirectRoom {
                    creator,
                    recipient: body.recipient,
                })
            },
            room_report(opt_text(body.room_name), opt_text(body.description)).len() != 0 ==> {
                &&& res.0.phase is Finished
                &&& res.1 matches DirectRoomAction::Respond(Err(e)) && bad_request_with(
                    e,
                    ErrorMessage::InvalidInput,
                )
            },
    {
        let recipient = body.recipient;
        match body.validate() {
            Ok(()) => (
                DirectRoomFlow { creator, recipient, phase: DirectRoomPhase::AwaitLookup },
                DirectRoomAction::FindDirectRoom { creator, recipient },
            ),
            Err(_) => (
                DirectRoomFlow { creator, recipient, phase: DirectRoomPhase::Finished },
                DirectRoomAction::Respond(Err(bad_request_of(ErrorMessage::InvalidInput))),
            ),
        }
    }

    /// One step. A failed lookup is a server error "room not found"; a room that
    /// exists is the answer; otherwise the room is created ("create room failed"
    /// on failure), the caller added ("add member failed"), the recipient looked
    /// up ("user does not exist" when the lookup fails or finds nobody), a
    /// verified recipient added ("add member failed, they dont exist"), and the
    /// new room is the answer.
    pub fn step(self, ev: DirectRoomEvent) -> (res: (DirectRoomFlow, DirectRoomAction))
        requires
            self.accepts(ev),
        ensures
            res.0.creator == self.creator,
            res.0.recipient == self.recipient,
            res.0.rank() > self.rank(),
            res.0.phase is Finished <==> res.1 is Respond,
            match (self.phase, ev) {
                (DirectRoomPhase::AwaitLookup, DirectRoomEvent::Looked(Err(_))) => res.1 matches DirectRoomAction::Respond(Err(e)) && server_error_with(e, ErrorMessage::RoomNotFound),
                (DirectRoomPhase::AwaitLookup, DirectRoomEvent::Looked(Ok(Some(room)))) => res.1 matches DirectRoomAction::Respond(r) && room_answer(r, room),
                (DirectRoomPhase::AwaitLookup, DirectRoomEvent::Looked(Ok(None))) => res.0.phase is AwaitCreate && res.1 == (DirectRoomAction::CreateDirectRoom { creator: self.creator, recipient: self.recipient }),
                (DirectRoomPhase::AwaitCreate, DirectRoomEvent::Created(Err(_))) => res.1 matches DirectRoomAction::Respond(Err(e)) && server_error_with(e, ErrorMessage::CreateRoomFailed),
                (DirectRoomPhase::AwaitCreate, DirectRoomEvent::Created(Ok(room))) => res.0.phase == (DirectRoomPhase::AwaitAddCreator { room }) && res.1 == (DirectRoomAction::AddMember { room_id: room.room_id, user_id: Some(self.creator) }),
                (DirectRoomPhase::AwaitAddCreator { .. }, DirectRoomEvent::Added(Err(_))) => res.1 matches DirectRoomAction::Respond(Err(e)) && server_error_with(e, ErrorMessage::AddMemberFailed),
                (DirectRoomPhase::AwaitAddCreator { room }, DirectRoomEvent::Added(Ok(_))) => res.0.phase == (DirectRoomPhase::AwaitRecipient { room }) && res.1 == (DirectRoomAction::FindUser { user_id: self.recipient }),
                (DirectRoomPhase::AwaitRecipient { .. }, DirectRoomEvent::RecipientLooked(Err(_))) => res.1 matches DirectRoomAction::Respond(Err(e)) && server_error_with(e, ErrorMessage::UserNotExist),
                (DirectRoomPhase::AwaitRecipient { .. }, DirectRoomEvent::RecipientLooked(Ok(None))) => res.1 matches DirectRoomAction::Respond(Err(e)) && server_error_with(e, ErrorMessage::UserNotExist),
                (DirectRoomPhase::AwaitRecipient { room }, DirectRoomEvent::RecipientLooked(Ok(Some(u)))) => if u.is_verified {
                    res.0.phase == (DirectRoomPhase::AwaitAddRecipient { room }) && res.1 == (DirectRoomAction::AddMember { room_id: room.room_id, user_id: self.recipient })
                } else {
                    res.1 matches DirectRoomAction::Respond(r) && room_answer(r, room)
                },
                (DirectRoomPhase::AwaitAddRecipient { .. }, DirectRoomEvent::Added(Err(_))) => res.1 matches DirectRoomAction::Respond(Err(e)) && server_error_with(e, ErrorMessage::AddMemberFailedV2),
                (DirectRoomPhase::AwaitAddRecipient { room }, DirectRoomEvent::Added(Ok(_))) => res.1 matches DirectRoomAction::Respond(r) && room_answer(r, room),
                _ => false,
            },
    {
        let creator = self.creator;
        let recipient = self.recipient;
        let finished = DirectRoomFlow { creator, recipient, phase: DirectRoomPhase::Finished };
        match (self.phase, ev) {
            (DirectRoomPhase::AwaitLookup, DirectRoomEvent::Looked(found)) => match found {
                Err(_) => (
                    finished,
                    DirectRoomAction::Respond(Err(server_error_of(ErrorMessage::RoomNotFound))),
                ),
                Ok(Some(room)) => (finished, DirectRoomAction::Respond(answer_room(room))),
                Ok(None) => (
                    DirectRoomFlow { creator, recipient, phase: DirectRoomPhase::AwaitCreate },
                    DirectRoomAction::CreateDirectRoom { creator, recipient },
                ),
            },
            (DirectRoomPhase::AwaitCreate, DirectRoomEvent::Created(created)) => match created {
                Err(_) => (
                    finished,
                    DirectRoomAction::Respond(Err(server_error_of(ErrorMessage::CreateRoomFailed))),
                ),
                Ok(room) => {
                    let room_id = room.room_id;
                    (
                        DirectRoomFlow {
                            creator,
                            recipient,
                            phase: DirectRoomPhase::AwaitAddCreator { room },
                        },
                        DirectRoomAction::AddMember { room_id, user_id: Some(creator) },
                    )
                },
            },
            (DirectRoomPhase::AwaitAddCreator { room }, DirectRoomEvent::Added(added)) => match added {
                Err(_) => (
                    finished,
                    DirectRoomAction::Respond(Err(server_error_of(ErrorMessage::AddMemberFailed))),
                ),
                Ok(_) => (
                    DirectRoomFlow {
                        creator,
                        recipient,
                        phase: DirectRoomPhase::AwaitRecipient { room },
                    },
                    DirectRoomAction::FindUser { user_id: recipient },
                ),
            },
            (DirectRoomPhase::AwaitRecipient { room }, DirectRoomEvent::RecipientLooked(found)) => match found {
                Err(_) => (
                    finished,
                    DirectRoomAction::Respond(Err(server_error_of(ErrorMessage::UserNotExist))),
                ),
                Ok(None) => (
                    finished,
                    DirectRoomAction::Respond(Err(server_error_of(ErrorMessage::UserNotExist))),
                ),
                Ok(Some(u)) => {
                    if u.is_verified {
                        let room_id = room.room_id;
                        (
                            DirectRoomFlow {
                                creator,
                                recipient,
                                phase: DirectRoomPhase::AwaitAddRecipient { room },
                            },
                            DirectRoomAction::AddMember { room_id, user_id: recipient },
                        )
                    } else {
                        (finished, DirectRoomAction::Respond(answer_room(room)))
                    }
                },
            },
            (DirectRoomPhase::AwaitAddRecipient { room }, DirectRoomEvent::Added(added)) => match added {
                Err(_) => (
                    finished,
                    DirectRoomAction::Respond(Err(server_error_of(ErrorMessage::AddMemberFailedV2))),
                ),
                Ok(_) => (finished, DirectRoomAction::Respond(answer_room(room))),
            },
            _ => {
                proof {
                    assert(false);
                }
                (finished, DirectRoomAction::Respond(Err(server_error_of(ErrorMessage::InvalidInput))))
            },
        }
    }
}

// ---------------------------------------------------------------------------
// A named group room.

/// A copy of an optional text.
fn copy_opt(o: &Option<String>) -> (res: Option<String>)
    ensures
        opt_text(res) == opt_text(*o),
{
    match o {
        Some(s) => Some(s.clone()),
        None => None,
    }
}

/// Where the group-room machine stands.
pub enum GroupRoomPhase {
    /// Waiting for the lookup of a room with the same name.
    AwaitLookup,
    /// Waiting for the new room.
    AwaitCreate,
    /// Waiting for the caller to be added to the new room.
    AwaitAddCreator { room: ChatRoom },
    /// Answered.
    Finished,
}

/// The group-room machine: the caller, the name and description asked for, and
/// the phase.
pub struct GroupRoomFlow {
    pub creator: u128,
    pub room_name: Option<String>,
    pub description: Option<String>,
    pub phase: GroupRoomPhase,
}

/// The outcome of the last database call.
pub enum GroupRoomEvent {
    Looked(Result<Option<ChatRoom>, DbError>),
    Created(Result<ChatRoom, DbError>),
    Added(Result<RoomMembers, DbError>),
}

/// What to do next.
pub enum GroupRoomAction {
    /// Look up a room by name.
    FindRoomByName { room_name: Option<String> },
    /// Create a group room (not direct, without a pair key).
    CreateGroupRoom { room_name: Option<String>, creator: u128, description: Option<String> },
    /// Add a member to a room.
    AddMember { room_id: u128, user_id: Option<u128> },
    /// Answer the request.
    Respond(Result<CreateRoomResponse, HttpError>),
}

impl GroupRoomFlow {
    /// How far the machine has come; every step raises it.
    pub open spec fn rank(&self) -> int {
        match self.phase {
            GroupRoomPhase::AwaitLookup => 0,
            GroupRoomPhase::AwaitCreate => 1,
            GroupRoomPhase::AwaitAddCreator { .. } => 2,
            GroupRoomPhase::Finished => 3,
        }
    }

    /// The event is the outcome of the call that the phase waits for.
    pub open spec fn accepts(&self, ev: GroupRoomEvent) -> bool {
        match self.phase {
            GroupRoomPhase::AwaitLookup => ev is Looked,
            GroupRoomPhase::AwaitCreate => ev is Created,
            GroupRoomPhase::AwaitAddCreator { .. } => ev is Added,
            GroupRoomPhase::Finished => false,
        }
    }

    /// The machine for a request from `creator`: a body that breaks the room
    /// rules is answered "bad request: invalid credentials"; otherwise a room of
    /// the same name is looked up.
    pub fn start(creator: u128, body: CreateRoomRequest) -> (res: (GroupRoomFlow, GroupRoomAction))
        ensures
            res.0.creator == creator,
            opt_text(res.0.room_name) == opt_text(body.room_name),
            opt_text(res.0.description) == opt_text(body.description),
            room_report(opt_text(body.room_name), opt_text(body.description)).len() == 0 ==> {
                &&& res.0.phase is AwaitLookup
                &&& res.1 matches GroupRoomAction::FindRoomByName { room_name } && opt_text(room_name) == opt_text(body.room_name)
            },
            room_report(opt_text(body.room_name), opt_text(body.description)).len() != 0 ==> {
                &&& res.0.phase is Finished
                &&& res.1 matches GroupRoomAction::Respond(Err(e)) && bad_request_with(
                    e,
                    ErrorMessage::InvalidCredentials,
                )
            },
    {
        let valid = body.validate();
        let name = copy_opt(&body.room_name);
        let flow_name = body.room_name;
        let description = body.description;
        match valid {
            Ok(()) => (
                GroupRoomFlow {
                    creator,
                    room_name: flow_name,
                    description,
                    phase: GroupRoomPhase::AwaitLookup,
                },
                GroupRoomAction::FindRoomByName { room_name: name },
            ),
            Err(_) => (
                GroupRoomFlow {
                    creator,
                    room_name: flow_name,
                    description,
                    phase: GroupRoomPhase::Finished,
                },
                GroupRoomAction::Respond(Err(bad_request_of(ErrorMessage::InvalidCredentials))),
            ),
        }
    }

    /// One step. A failed lookup is a server error "chat room already exists", a
    /// room of the same name the server error "create room failed"; otherwise the
    /// room is created ("create room failed" on failure), the caller added ("add
    /// member failed"), and the new room is the answer.
    pub fn step(self, ev: GroupRoomEvent) -> (res: (GroupRoomFlow, GroupRoomAction))
        requires
            self.accepts(ev),
        ensures
            res.0.creator == self.creator,
            res.0.rank() > self.rank(),
            res.0.phase is Finished <==> res.1 is Respond,
            match (self.phase, ev) {
                (GroupRoomPhase::AwaitLookup, GroupRoomEvent::Looked(Err(_))) => res.1 matches GroupRoomAction::Respond(Err(e)) && server_error_with(e, ErrorMessage::RoomAlreadyExist),
                (GroupRoomPhase::AwaitLookup, GroupRoomEvent::Looked(Ok(Some(_)))) => res.1 matches GroupRoomAction::Respond(Err(e)) && server_error_with(e, ErrorMessage::CreateRoomFailed),
                (GroupRoomPhase::AwaitLookup, GroupRoomEvent::Looked(Ok(None))) => res.0.phase is AwaitCreate && (res.1 matches GroupRoomAction::CreateGroupRoom { room_name, creator, description } && opt_text(room_name) == opt_text(self.room_name) && creator == self.creator && opt_text(description) == opt_text(self.description)),
                (GroupRoomPhase::AwaitCreate, GroupRoomEvent::Created(Err(_))) => res.1 matches GroupRoomAction::Respond(Err(e)) && server_error_with(e, ErrorMessage::CreateRoomFailed),
                (GroupRoomPhase::AwaitCreate, GroupRoomEvent::Created(Ok(room))) => res.0.phase == (GroupRoomPhase::AwaitAddCreator { room }) && res.1 == (GroupRoomAction::AddMember { room_id: room.room_id, user_id: Some(self.creator) }),
                (GroupRoomPhase::AwaitAddCreator { .. }, GroupRoomEvent::Added(Err(_))) => res.1 matches GroupRoomAction::Respond(Err(e)) && server_error_with(e, ErrorMessage::AddMemberFailed),
                (GroupRoomPhase::AwaitAddCreator { room }, GroupRoomEvent::Added(Ok(_))) => res.1 matches GroupRoomAction::Respond(r) && room_answer(r, room),
                _ => false,
            },
    {
        let creator = self.creator;
        match (self.phase, ev) {
            (GroupRoomPhase::AwaitLookup, GroupRoomEvent::Looked(found)) => match found {
                Err(_) => (
                    GroupRoomFlow {
                        creator,
                        room_name: self.room_name,
                        description: self.description,
                        phase: GroupRoomPhase::Finished,
                    },
                    GroupRoomAction::Respond(Err(server_error_of(ErrorMessage::RoomAlreadyExist))),
                ),
                Ok(Some(_)) => (
                    GroupRoomFlow {
                        creator,
                        room_name: self.room_name,
                        description: self.description,
                        phase: GroupRoomPhase::Finished,
                    },
                    GroupRoomAction::Respond(Err(server_error_of(ErrorMessage::CreateRoomFailed))),
                ),
                Ok(None) => {
                    let room_name = copy_opt(&self.room_name);
                    let description = copy_opt(&self.description);
                    (
                        GroupRoomFlow {
                            creator,
                            room_name: self.room_name,
                            description: self.description,
                            phase: GroupRoomPhase::AwaitCreate,
                        },
                        GroupRoomAction::CreateGroupRoom { room_name, creator, description },
                    )
                },
            },
            (GroupRoomPhase::AwaitCreate, GroupRoomEvent::Created(created)) => match created {
                Err(_) => (
                    GroupRoomFlow {
                        creator,
                        room_name: self.room_name,
                        description: self.description,
                        phase: GroupRoomPhase::Finished,
                    },
                    GroupRoomAction::Respond(Err(server_error_of(ErrorMessage::CreateRoomFailed))),
                ),
                Ok(room) => {
                    let room_id = room.room_id;
                    (
                        GroupRoomFlow {
                            creator,
                            room_name: self.room_name,
                            description: self.description,
                            phase: GroupRoomPhase::AwaitAddCreator { room },
                        },
                        GroupRoomAction::AddMember { room_id, user_id: Some(creator) },
                    )
                },
            },
            (GroupRoomPhase::AwaitAddCreator { room }, GroupRoomEvent::Added(added)) => match added {
                Err(_) => (
                    GroupRoomFlow {
                        creator,
                        room_name: self.room_name,
                        description: self.description,
                        phase: GroupRoomPhase::Finished,
                    },
                    GroupRoomAction::Respond(Err(server_error_of(ErrorMessage::AddMemberFailed))),
                ),
                Ok(_) => (
                    GroupRoomFlow {
                        creator,
                        room_name: self.room_name,
                        description: self.description,
                        phase: GroupRoomPhase::Finished,
                    },
                    GroupRoomAction::Respond(answer_room(room)),
                ),
            },
            _ => {
                proof {
                    assert(false);
                }
                (
                    GroupRoomFlow {
                        creator,
                        room_name: self.room_name,
                        description: self.description,
                        phase: GroupRoomPhase::Finished,
                    },
                    GroupRoomAction::Respond(Err(server_error_of(ErrorMessage::InvalidInput))),
                )
            },
        }
    }
}

// ---------------------------------------------------------------------------
// Joining a room.

/// Where the join machine stands.
pub enum JoinRoomPhase {
    /// Waiting for the membership check.
    AwaitCheck,
    /// Waiting for the caller to be added.
    AwaitAdd,
    /// Answered.
    Finished,
}

/// The join machine: the caller, the request, and the phase.
pub struct JoinRoomFlow {
    pub caller: u128,
    pub room_id: u128,
    pub user_id: u128,
    pub phase: JoinRoomPhase,
}

/// The outcome of the last database call.
pub enum JoinRoomEvent {
    Checked(Result<bool, DbError>),
    Added(Result<RoomMembers, DbError>),
}

/// What to do next.
pub enum JoinRoomAction {
    /// Check whether a user is already a member of a room.
    CheckMember { user_id: Option<u128>, room_id: u128 },
    /// Add a member to a room.
    AddMember { room_id: u128, user_id: Option<u128> },
    /// Answer the request.
    Respond(Result<roomMemberResponse, HttpError>),
}

impl JoinRoomFlow {
    /// How far the machine has come; every step raises it.
    pub open spec fn rank(&self) -> int {
        match self.phase {
            JoinRoomPhase::AwaitCheck => 0,
            JoinRoomPhase::AwaitAdd => 1,
            JoinRoomPhase::Finished => 2,
        }
    }

    /// The event is the outcome of the call that the phase waits for.
    pub open spec fn accepts(&self, ev: JoinRoomEvent) -> bool {
        match self.phase {
            JoinRoomPhase::AwaitCheck => ev is Checked,
            JoinRoomPhase::AwaitAdd => ev is Added,
            JoinRoomPhase::Finished => false,
        }
    }

    /// The machine for a join request from `caller`: first the membership of the
    /// user named in the body is checked.
    pub fn start(caller: u128, body: &RoomMembersRequest) -> (res: (JoinRoomFlow, JoinRoomAction))
        ensures
            res.0 == (JoinRoomFlow {
                caller,
                room_id: body.room_id,
                user_id: body.user_id,
                phase: JoinRoomPhase::AwaitCheck,
            }),
            res.1 == (JoinRoomAction::CheckMember { user_id: Some(body.user_id), room_id: body.room_id }),
    {
        (
            JoinRoomFlow {
                caller,
                room_id: body.room_id,
                user_id: body.user_id,
                phase: JoinRoomPhase::AwaitCheck,
            },
            JoinRoomAction::CheckMember { user_id: Some(body.user_id), room_id: body.room_id },
        )
    }

    /// One step. A failed check is a server error "room member doesnt exist", a
    /// member already there the bad request "user already a member"; otherwise
    /// the caller is added to the room ("add member failed" on failure) and the
    /// new membership is the answer.
    pub fn step(self, ev: JoinRoomEvent) -> (res: (JoinRoomFlow, JoinRoomAction))
        requires
            self.accepts(ev),
        ensures
            res.0.caller == self.caller,
            res.0.room_id == self.room_id,
            res.0.user_id == self.user_id,
            res.0.rank() > self.rank(),
            res.0.phase is Finished <==> res.1 is Respond,
            match (self.phase, ev) {
                (JoinRoomPhase::AwaitCheck, JoinRoomEvent::Checked(Err(_))) => res.1 matches JoinRoomAction::Respond(Err(e)) && server_error_with(e, ErrorMessage::MemberNotExist),
                (JoinRoomPhase::AwaitCheck, JoinRoomEvent::Checked(Ok(true))) => res.1 matches JoinRoomAction::Respond(Err(e)) && e.has(STATUS_BAD_REQUEST, "user already a member"@),
                (JoinRoomPhase::AwaitCheck, JoinRoomEvent::Checked(Ok(false))) => res.1 == (JoinRoomAction::AddMember { room_id: self.room_id, user_id: Some(self.caller) }),
                (JoinRoomPhase::AwaitAdd, JoinRoomEvent::Added(Err(_))) => res.1 matches JoinRoomAction::Respond(Err(e)) && server_error_with(e, ErrorMessage::AddMemberFailed),
                (JoinRoomPhase::AwaitAdd, JoinRoomEvent::Added(Ok(m))) => res.1 matches JoinRoomAction::Respond(Ok(r)) && r.status@ == success() && r.data == m,
                _ => false,
            },
    {
        let caller = self.caller;
        let room_id = self.room_id;
        let user_id = self.user_id;
        let finished = JoinRoomFlow { caller, room_id, user_id, phase: JoinRoomPhase::Finished };
        match (self.phase, ev) {
            (JoinRoomPhase::AwaitCheck, JoinRoomEvent::Checked(checked)) => match checked {
                Err(_) => (
                    finished,
                    JoinRoomAction::Respond(Err(server_error_of(ErrorMessage::MemberNotExist))),
                ),
                Ok(true) => (
                    finished,
                    JoinRoomAction::Respond(
                        Err(HttpError::bad_service(String::from_str("user already a member"))),
                    ),
                ),
                Ok(false) => (
                    JoinRoomFlow { caller, room_id, user_id, phase: JoinRoomPhase::AwaitAdd },
                    JoinRoomAction::AddMember { room_id, user_id: Some(caller) },
                ),
            },
            (JoinRoomPhase::AwaitAdd, JoinRoomEvent::Added(added)) => match added {
                Err(_) => (
                    finished,
                    JoinRoomAction::Respond(Err(server_error_of(ErrorMessage::AddMemberFailed))),
                ),
                Ok(m) => (
                    finished,
                    JoinRoomAction::Respond(
                        Ok(roomMemberResponse { status: String::from_str("success"), data: m }),
                    ),
                ),
            },
            _ => {
                proof {
                    assert(false);
                }
                (finished, JoinRoomAction::Respond(Err(server_error_of(ErrorMessage::InvalidInput))))
            },
        }
    }
}

/// The answer to the listing of group rooms: a failed listing is the server
/// error "room not found"; otherwise the rooms, with the caller's membership.
pub fn group_rooms_answer(listed: Result<Vec<GroupChatroomWithMembership>, DbError>) -> (res: Result<
    ChatRoomsResponse,
    HttpError,
>)
    ensures
        match listed {
            Err(_) => res matches Err(e) && server_error_with(e, ErrorMessage::RoomNotFound),
            Ok(rooms) => res matches Ok(r) && r.status@ == success() && r.data == rooms,
        },
{
    match listed {
        Err(_) => Err(server_error_of(ErrorMessage::RoomNotFound)),
        Ok(rooms) => Ok(ChatRoomsResponse { status: String::from_str("success"), data: rooms }),
    }
}

/// Whether a user is a member, from the database's `EXISTS` answer (which may be
/// null): a null answer counts as "not a member".
pub fn membership_flag(exists: Option<bool>) -> (res: bool)
    ensures
        res == (exists == Some(true)),
{
    match exists {
        Some(e) => e,
        None => false,
    }
}

} // verus!
