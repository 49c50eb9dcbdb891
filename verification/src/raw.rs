//! Protocol values that the library carries without looking inside.

use vstd::prelude::*;

verus! {

/// The protocol's photo of a chat. Carried as it is.
#[verifier::external_type_specification]
#[verifier::external_body]
pub struct ExChatPhoto(grammers_tl_types::types::ChatPhoto);

/// The protocol's handle of an uploaded file. Carried as it is.
#[verifier::external_type_specification]
#[verifier::external_body]
pub struct ExInputFile(grammers_tl_types::enums::InputFile);

/// The protocol's media descriptor. Carried as it is.
#[verifier::external_type_specification]
#[verifier::external_body]
pub struct ExInputMedia(grammers_tl_types::enums::InputMedia);

/// The protocol's formatting span. Carried as it is.
#[verifier::external_type_specification]
#[verifier::external_body]
pub struct ExMessageEntity(grammers_tl_types::enums::MessageEntity);

/// The protocol's reply markup. Carried as it is.
#[verifier::external_type_specification]
#[verifier::external_body]
pub struct ExReplyMarkup(grammers_tl_types::enums::ReplyMarkup);

/// The protocol's document attribute. Carried as it is.
#[verifier::external_type_specification]
#[verifier::external_body]
pub struct ExDocumentAttribute(grammers_tl_types::enums::DocumentAttribute);

/// The protocol's reference to a stored document. Carried as it is.
#[verifier::external_type_specification]
#[verifier::external_body]
pub struct ExInputDocument(grammers_tl_types::enums::InputDocument);

/// The protocol's reference to a stored photo. Carried as it is.
#[verifier::external_type_specification]
#[verifier::external_body]
pub struct ExInputPhoto(grammers_tl_types::enums::InputPhoto);

/// The kind of chat that a packed chat addresses, with its variants.
#[verifier::external_type_specification]
pub struct ExPackedType(grammers_session::PackedType);

/// A packed chat of the session crate, with its three fields.
#[verifier::external_type_specification]
pub struct ExPackedChat(grammers_session::PackedChat);

/// A point in time of the system clock. Carried as it is.
#[verifier::external_type_specification]
#[verifier::external_body]
pub struct ExSystemTime(std::time::SystemTime);

/// `Clone::clone` of the photo of a chat, which the protocol crate derives.
/// Trusted: the copy equals the photo, as a derived copy of a record of
/// plain fields does.
pub assume_specification[ <grammers_tl_types::types::ChatPhoto as Clone>::clone ](
    v: &grammers_tl_types::types::ChatPhoto,
) -> (r: grammers_tl_types::types::ChatPhoto)
    ensures
        r == *v,
;

/// `Clone::clone` of a file handle, as the protocol crate derives it.
/// Nothing is claimed of the copy.
pub assume_specification[ <grammers_tl_types::enums::InputFile as Clone>::clone ](
    v: &grammers_tl_types::enums::InputFile,
) -> grammers_tl_types::enums::InputFile;

/// `Clone::clone` of a media descriptor, as the protocol crate derives it.
/// Nothing is claimed of the copy.
pub assume_specification[ <grammers_tl_types::enums::InputMedia as Clone>::clone ](
    v: &grammers_tl_types::enums::InputMedia,
) -> grammers_tl_types::enums::InputMedia;

/// `Clone::clone` of a document attribute, as the protocol crate derives it.
/// Nothing is claimed of the copy.
pub assume_specification[ <grammers_tl_types::enums::DocumentAttribute as Clone>::clone ](
    v: &grammers_tl_types::enums::DocumentAttribute,
) -> grammers_tl_types::enums::DocumentAttribute;

} // verus!
