//! Notification descriptors, the two kinds of request, and their outcomes.
use vstd::prelude::*;

use crate::text::{
    encode_fixed, fill_buffer, fixed_buffer, lemma_fixed_buffer_fits, lemma_fixed_buffer_truncates,
    utf16_of,
};

verus! {

/// Width in UTF-16 units of a descriptor's title buffer.
pub const TITLE_UNITS: usize = 64;

/// Width in UTF-16 units of a descriptor's body buffer.
pub const BODY_UNITS: usize = 256;

/// Descriptor flag: the descriptor carries balloon text.
pub const FLAG_INFO: u32 = 0x10;

/// Descriptor flag: the item is named by its explicit identifier.
pub const FLAG_GUID: u32 = 0x20;

/// Severity flag for a balloon without an icon.
pub const SEVERITY_NONE: u32 = 0;

/// Opcode of the platform call that adds a notification.
pub const OPCODE_ADD: u32 = 0;

/// Opcode of the platform call that deletes a notification.
pub const OPCODE_DELETE: u32 = 2;

/// A 128-bit globally unique identifier, in the platform's field layout.
/// `data4` holds the eight trailing bytes, the first one most significant.
#[derive(Clone, Copy, Debug, PartialEq, Eq, Structural)]
pub struct Guid {
    pub data1: u32,
    pub data2: u16,
    pub data3: u16,
    pub data4: u64,
}

/// The operation requested of the platform's notification service.
#[derive(Clone, Copy, Debug, PartialEq, Eq, Structural)]
pub enum NotificationKind {
    Add,
    Delete,
}

impl NotificationKind {
    pub open spec fn spec_opcode(self) -> u32 {
        match self {
            NotificationKind::Add => OPCODE_ADD,
            NotificationKind::Delete => OPCODE_DELETE,
        }
    }

    /// The numeric opcode that the platform call takes for this kind.
    pub fn opcode(&self) -> (r: u32)
        ensures
            r == self.spec_opcode(),
    {
        match self {
            NotificationKind::Add => OPCODE_ADD,
            NotificationKind::Delete => OPCODE_DELETE,
        }
    }
}

/// Why a notification request failed.
#[derive(Clone, Copy, Debug, PartialEq, Eq, Structural)]
pub enum NotifyError {
    /// The platform call reported failure; holds its last-error code.
    PlatformCallFailed(u32),
}

impl NotifyError {
    /// The platform's last-error code carried by this error.
    pub fn code(&self) -> (r: u32)
        ensures
            r == self->PlatformCallFailed_0,
    {
        match self {
            NotifyError::PlatformCallFailed(code) => *code,
        }
    }
}

/// The fields of a notification descriptor that this library fills in.
pub struct NotificationRequest {
    pub kind: NotificationKind,
    pub flags: u32,
    /// Body text buffer, `BODY_UNITS` wide.
    pub info: Vec<u16>,
    /// Title text buffer, `TITLE_UNITS` wide.
    pub info_title: Vec<u16>,
    pub info_flags: u32,
    pub guid: Guid,
}

/// The mathematical content of a `NotificationRequest`.
pub ghost struct RequestView {
    pub kind: NotificationKind,
    pub flags: u32,
    pub info: Seq<u16>,
    pub info_title: Seq<u16>,
    pub info_flags: u32,
    pub guid: Guid,
}

impl View for NotificationRequest {
    type V = RequestView;

    open spec fn view(&self) -> RequestView {
        RequestView {
            kind: self.kind,
            flags: self.flags,
            info: self.info@,
            info_title: self.info_title@,
            info_flags: self.info_flags,
            guid: self.guid,
        }
    }
}

/// The descriptor that shows `body` under `title` as the item `guid`.
pub open spec fn show_request(title: Seq<char>, body: Seq<char>, guid: Guid) -> RequestView {
    RequestView {
        kind: NotificationKind::Add,
        flags: FLAG_INFO | FLAG_GUID,
        info: fixed_buffer(utf16_of(body), BODY_UNITS as nat),
        info_title: fixed_buffer(utf16_of(title), TITLE_UNITS as nat),
        info_flags: SEVERITY_NONE,
        guid,
    }
}

/// The descriptor that removes the item `guid`: only the identifier and the
/// flag that says the item is named by it.
pub open spec fn remove_request(guid: Guid) -> RequestView {
    RequestView {
        kind: NotificationKind::Delete,
        flags: FLAG_GUID,
        info: fixed_buffer(seq![], BODY_UNITS as nat),
        info_title: fixed_buffer(seq![], TITLE_UNITS as nat),
        info_flags: SEVERITY_NONE,
        guid,
    }
}

impl NotificationRequest {
    /// A well-formed descriptor has text buffers of the platform's widths.
    pub open spec fn wf(&self) -> bool {
        &&& self.info@.len() == BODY_UNITS
        &&& self.info_title@.len() == TITLE_UNITS
    }

    /// Builds the descriptor that adds a balloon showing `body` under
    /// `title`, named by `guid`. Text longer than its buffer is cut at the
    /// buffer's width in UTF-16 units; shorter text is padded with zeros.
    pub fn show(title: &str, body: &str, guid: Guid) -> (r: NotificationRequest)
        ensures
            r@ == show_request(title@, body@, guid),
            r.wf(),
    {
        NotificationRequest {
            kind: NotificationKind::Add,
            flags: FLAG_INFO | FLAG_GUID,
            info: encode_fixed(body, BODY_UNITS),
            info_title: encode_fixed(title, TITLE_UNITS),
            info_flags: SEVERITY_NONE,
            guid,
        }
    }

    /// Builds the descriptor that removes the item named by `guid`.
    pub fn remove(guid: Guid) -> (r: NotificationRequest)
        ensures
            r@ == remove_request(guid),
            r.wf(),
    {
        NotificationRequest {
            kind: NotificationKind::Delete,
            flags: FLAG_GUID,
            info: fill_buffer(&Vec::new(), BODY_UNITS),
            info_title: fill_buffer(&Vec::new(), TITLE_UNITS),
            info_flags: SEVERITY_NONE,
            guid,
        }
    }

    /// The opcode under which this descriptor is passed to the platform.
    pub fn opcode(&self) -> (r: u32)
        ensures
            r == self.kind.spec_opcode(),
    {
        self.kind.opcode()
    }
}

/// What a show request yields, given the platform call's return value and
/// the last-error code read after it.
pub open spec fn show_result(returned: i32, guid: Guid, last_error: u32) -> Result<Guid, NotifyError> {
    if returned != 0 {
        Ok(guid)
    } else {
        Err(NotifyError::PlatformCallFailed(last_error))
    }
}

/// What a remove request yields, given the platform call's return value and
/// the last-error code read after it.
pub open spec fn remove_result(returned: i32, last_error: u32) -> Result<(), NotifyError> {
    if returned != 0 {
        Ok(())
    } else {
        Err(NotifyError::PlatformCallFailed(last_error))
    }
}

/// Turns the reply to a show request into its result: the request's
/// identifier when the call returned non-zero, else the last-error code.
pub fn show_outcome(request: &NotificationRequest, returned: i32, last_error: u32) -> (r: Result<
    Guid,
    NotifyError,
>)
    ensures
        r == show_result(returned, request.guid, last_error),
{
    if returned != 0 {
        Ok(request.guid)
    } else {
        Err(NotifyError::PlatformCallFailed(last_error))
    }
}

/// Turns the reply to a remove request into its result: success when the
/// call returned non-zero, else the last-error code.
pub fn remove_outcome(returned: i32, last_error: u32) -> (r: Result<(), NotifyError>)
    ensures
        r == remove_result(returned, last_error),
{
    if returned != 0 {
        Ok(())
    } else {
        Err(NotifyError::PlatformCallFailed(last_error))
    }
}

/// A title that fits in the title buffer is stored exactly: the buffer
/// starts with its UTF-16 units and holds only zeros after them.
pub proof fn lemma_short_title_stored_whole(title: Seq<char>, body: Seq<char>, guid: Guid)
    requires
        utf16_of(title).len() <= TITLE_UNITS,
    ensures
        show_request(title, body, guid).info_title.subrange(0, utf16_of(title).len() as int)
            == utf16_of(title),
        forall|i: int|
            utf16_of(title).len() <= i < TITLE_UNITS ==> #[trigger] show_request(
                title,
                body,
                guid,
            ).info_title[i] == 0,
{
    lemma_fixed_buffer_fits(utf16_of(title), TITLE_UNITS as nat);
}

/// A title longer than the title buffer is stored as its first
/// `TITLE_UNITS` UTF-16 units.
pub proof fn lemma_long_title_truncated(title: Seq<char>, body: Seq<char>, guid: Guid)
    requires
        utf16_of(title).len() > TITLE_UNITS,
    ensures
        show_request(title, body, guid).info_title == utf16_of(title).subrange(
            0,
            TITLE_UNITS as int,
        ),
{
    lemma_fixed_buffer_truncates(utf16_of(title), TITLE_UNITS as nat);
}

/// A body that fits in the body buffer is stored exactly: the buffer starts
/// with its UTF-16 units and holds only zeros after them.
pub proof fn lemma_short_body_stored_whole(title: Seq<char>, body: Seq<char>, guid: Guid)
    requires
        utf16_of(body).len() <= BODY_UNITS,
    ensures
        show_request(title, body, guid).info.subrange(0, utf16_of(body).len() as int)
            == utf16_of(body),
        forall|i: int|
            utf16_of(body).len() <= i < BODY_UNITS ==> #[trigger] show_request(
                title,
                body,
                guid,
            ).info[i] == 0,
{
    lemma_fixed_buffer_fits(utf16_of(body), BODY_UNITS as nat);
}

/// A body longer than the body buffer is stored as its first `BODY_UNITS`
/// UTF-16 units.
pub proof fn lemma_long_body_truncated(title: Seq<char>, body: Seq<char>, guid: Guid)
    requires
        utf16_of(body).len() > BODY_UNITS,
    ensures
        show_request(title, body, guid).info == utf16_of(body).subrange(0, BODY_UNITS as int),
{
    lemma_fixed_buffer_truncates(utf16_of(body), BODY_UNITS as nat);
}

/// Removing any identifier, whether or not a show ever returned it, asks the
/// platform to delete exactly that item, carries no text, and ends either in
/// success or in the platform's own error code: there is no other outcome.
pub proof fn lemma_remove_any_identifier(guid: Guid, returned: i32, last_error: u32)
    ensures
        remove_request(guid).kind == NotificationKind::Delete,
        remove_request(guid).guid == guid,
        forall|i: int| 0 <= i < BODY_UNITS ==> #[trigger] remove_request(guid).info[i] == 0,
        forall|i: int|
            0 <= i < TITLE_UNITS ==> #[trigger] remove_request(guid).info_title[i] == 0,
        remove_result(returned, last_error) == Ok::<(), NotifyError>(())
            || remove_result(returned, last_error) == Err::<(), NotifyError>(
            NotifyError::PlatformCallFailed(last_error),
        ),
{
}

/// The identifier that a successful show returns is the one its descriptor
/// carried, so the remove request built from it names the item that was
/// added.
pub proof fn lemma_show_then_remove(
    title: Seq<char>,
    body: Seq<char>,
    guid: Guid,
    returned: i32,
    last_error: u32,
)
    requires
        show_result(returned, guid, last_error) is Ok,
    ensures
        show_result(returned, guid, last_error) == Ok::<Guid, NotifyError>(guid),
        remove_request(show_result(returned, guid, last_error)->Ok_0).guid == show_request(
            title,
            body,
            guid,
        ).guid,
{
}

} // verus!
