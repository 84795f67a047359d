//! Who may give privileged commands, and from where.
use crate::i18n::{sensitive_text, Locale, SensitiveText};
use crate::peer::PeerId;
use vstd::prelude::*;

verus! {

/// The privileged commands.
#[derive(Clone, Copy, Debug, PartialEq, Eq, Structural)]
pub enum SensitiveCommandPolicy {
    ModuleMutation,
    Reboot,
}

/// Why a privileged command was refused.
#[derive(Clone, Copy, Debug, PartialEq, Eq, Structural)]
pub enum SensitiveCommandDenial {
    Edited,
    NotSelfAuthored,
    InvalidMessageId,
    NotSavedMessages,
}

impl SensitiveCommandDenial {
    /// What the owner is told; the reason stays untold.
    #[verifier::allow_in_spec]
    pub fn response(self, locale: Locale, policy: SensitiveCommandPolicy) -> &'static str
        returns
            sensitive_text(
                locale,
                match policy {
                    SensitiveCommandPolicy::ModuleMutation => SensitiveText::ModuleMutationDenied,
                    SensitiveCommandPolicy::Reboot => SensitiveText::RebootDenied,
                },
            ),
    {
        match policy {
            SensitiveCommandPolicy::ModuleMutation => {
                sensitive_text(locale, SensitiveText::ModuleMutationDenied)
            },
            SensitiveCommandPolicy::Reboot => sensitive_text(locale, SensitiveText::RebootDenied),
        }
    }
}

/// Whether a privileged command is granted, and the first reason against it where it is not. It takes
/// a new message of the owner; changing modules also takes that it stands in Saved Messages.
pub open spec fn authorization(
    policy: SensitiveCommandPolicy,
    edited: bool,
    authored_by_self: bool,
    peer_id: PeerId,
    message_id: i32,
    saved_messages_peer: Option<PeerId>,
) -> Result<(), SensitiveCommandDenial> {
    if edited {
        Err(SensitiveCommandDenial::Edited)
    } else if !authored_by_self {
        Err(SensitiveCommandDenial::NotSelfAuthored)
    } else if message_id <= 0 {
        Err(SensitiveCommandDenial::InvalidMessageId)
    } else if policy == SensitiveCommandPolicy::ModuleMutation && saved_messages_peer != Some(
        peer_id,
    ) {
        Err(SensitiveCommandDenial::NotSavedMessages)
    } else {
        Ok(())
    }
}

/// [`authorization`], decided.
pub fn authorize_sensitive_message(
    policy: SensitiveCommandPolicy,
    edited: bool,
    authored_by_self: bool,
    peer_id: PeerId,
    message_id: i32,
    saved_messages_peer: Option<PeerId>,
) -> (result: Result<(), SensitiveCommandDenial>)
    ensures
        result == authorization(
            policy,
            edited,
            authored_by_self,
            peer_id,
            message_id,
            saved_messages_peer,
        ),
{
    if edited {
        return Err(SensitiveCommandDenial::Edited);
    }
    if !authored_by_self {
        return Err(SensitiveCommandDenial::NotSelfAuthored);
    }
    if message_id <= 0 {
        return Err(SensitiveCommandDenial::InvalidMessageId);
    }
    if policy == SensitiveCommandPolicy::ModuleMutation {
        let saved = match saved_messages_peer {
            Some(saved) => saved == peer_id,
            None => false,
        };
        if !saved {
            return Err(SensitiveCommandDenial::NotSavedMessages);
        }
    }
    Ok(())
}

/// Modules are changed only by a new message of the owner in Saved Messages. Where Saved Messages
/// are not known, nothing is changed.
pub proof fn module_changes_come_from_saved_messages(
    edited: bool,
    authored_by_self: bool,
    peer_id: PeerId,
    message_id: i32,
    saved_messages_peer: Option<PeerId>,
)
    ensures
        authorization(
            SensitiveCommandPolicy::ModuleMutation,
            edited,
            authored_by_self,
            peer_id,
            message_id,
            saved_messages_peer,
        ) is Ok <==> !edited && authored_by_self && message_id > 0 && saved_messages_peer == Some(
            peer_id,
        ),
        saved_messages_peer is None ==> authorization(
            SensitiveCommandPolicy::ModuleMutation,
            edited,
            authored_by_self,
            peer_id,
            message_id,
            saved_messages_peer,
        ) is Err,
{
}

/// A restart is granted in any dialog, and whatever is granted for modules is granted for a restart.
pub proof fn restarts_are_granted_everywhere(
    edited: bool,
    authored_by_self: bool,
    peer_id: PeerId,
    other_peer: PeerId,
    message_id: i32,
    saved_messages_peer: Option<PeerId>,
)
    ensures
        authorization(
            SensitiveCommandPolicy::Reboot,
            edited,
            authored_by_self,
            peer_id,
            message_id,
            saved_messages_peer,
        ) == authorization(
            SensitiveCommandPolicy::Reboot,
            edited,
            authored_by_self,
            other_peer,
            message_id,
            None,
        ),
        authorization(
            SensitiveCommandPolicy::ModuleMutation,
            edited,
            authored_by_self,
            peer_id,
            message_id,
            saved_messages_peer,
        ) is Ok ==> authorization(
            SensitiveCommandPolicy::Reboot,
            edited,
            authored_by_self,
            peer_id,
            message_id,
            saved_messages_peer,
        ) is Ok,
{
}

} // verus!
