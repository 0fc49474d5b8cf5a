use crate::campaign::CampaignId;
use crate::character::CharacterId;
use crate::encounter::EncounterId;
use crate::item::ItemId;
use crate::operation::spell::SpellTargetType;
use crate::operation::{InteractionId, Legality, LegalityView, OperationId, SpellTarget};
use crate::violations::Violation;
use vstd::prelude::*;

verus! {

/// The status of a request that was malformed.
pub const BAD_REQUEST: u16 = 400;

/// The status of a request for something that does not exist.
pub const NOT_FOUND: u16 = 404;

/// The status of a request that the state of the game does not allow.
pub const CONFLICT: u16 = 409;

/// The status of a request that failed inside the server.
pub const INTERNAL_SERVER_ERROR: u16 = 500;

/// Why a request failed. A failure of the transport or of the store is kept
/// as the text that describes it.
#[derive(Clone, Debug, PartialEq, Eq)]
pub enum Error {
    InvalidJson(String),
    InvalidPath(String),
    InvalidForm(String),
    InvalidQuery(String),
    PathNotFound,
    CampaignNotFound { campaign_id: CampaignId },
    CharacterNotFoundInCampaign { campaign_id: CampaignId, character_id: CharacterId },
    CurrentEncounterNotFound { campaign_id: CampaignId },
    ItemDoesNotExist { item_id: ItemId },
    OperationNotFound { encounter_id: EncounterId, operation_id: OperationId },
    InteractionNotFound { operation_id: OperationId, interaction_id: InteractionId },
    ConcurrentModificationDetected,
    CurrentEncounterAlreadyExists { campaign_id: CampaignId, encounter_id: EncounterId },
    CharacterNotInCampaign { campaign_id: CampaignId, character_id: CharacterId },
    CharacterNotInEncounter {
        campaign_id: CampaignId,
        encounter_id: EncounterId,
        character_id: CharacterId,
    },
    CharacterAlreadyRolledInitiative {
        campaign_id: CampaignId,
        encounter_id: EncounterId,
        character_id: CharacterId,
    },
    CharactersHaveNotRolledInitiative {
        campaign_id: CampaignId,
        encounter_id: EncounterId,
        character_ids: Vec<CharacterId>,
    },
    NoCharactersInEncounter { campaign_id: CampaignId, encounter_id: EncounterId },
    NotThisPlayersTurn {
        campaign_id: CampaignId,
        encounter_id: EncounterId,
        request_character_id: CharacterId,
        current_character_id: CharacterId,
    },
    ItemIsNotAWeapon { item_id: ItemId },
    CharacterDoesNotHavePosition { character_id: CharacterId },
    WrongCharacterForInteraction {
        operation_id: OperationId,
        interaction_id: InteractionId,
        expected_character_id: CharacterId,
        request_character_id: CharacterId,
    },
    InteractionAlreadyResolved { operation_id: OperationId, interaction_id: InteractionId },
    SpellDoesNotExist { name: String },
    CastUsesWrongTargetType { expected_type: SpellTargetType, provided_type: SpellTarget },
    OperationViolatesRules { violations: Vec<Violation> },
    OperationIsNotPending { operation_id: OperationId, legality: Legality },
    ExistentialState(String),
    FailedDatabaseCall(String),
    FailedToSerializeToBson(String),
    IoError(String),
}

/// An error with its texts and collections as sequences.
pub enum ErrorView {
    InvalidJson(Seq<char>),
    InvalidPath(Seq<char>),
    InvalidForm(Seq<char>),
    InvalidQuery(Seq<char>),
    PathNotFound,
    CampaignNotFound { campaign_id: CampaignId },
    CharacterNotFoundInCampaign { campaign_id: CampaignId, character_id: CharacterId },
    CurrentEncounterNotFound { campaign_id: CampaignId },
    ItemDoesNotExist { item_id: ItemId },
    OperationNotFound { encounter_id: EncounterId, operation_id: OperationId },
    InteractionNotFound { operation_id: OperationId, interaction_id: InteractionId },
    ConcurrentModificationDetected,
    CurrentEncounterAlreadyExists { campaign_id: CampaignId, encounter_id: EncounterId },
    CharacterNotInCampaign { campaign_id: CampaignId, character_id: CharacterId },
    CharacterNotInEncounter {
        campaign_id: CampaignId,
        encounter_id: EncounterId,
        character_id: CharacterId,
    },
    CharacterAlreadyRolledInitiative {
        campaign_id: CampaignId,
        encounter_id: EncounterId,
        character_id: CharacterId,
    },
    CharactersHaveNotRolledInitiative {
        campaign_id: CampaignId,
        encounter_id: EncounterId,
        character_ids: Seq<CharacterId>,
    },
    NoCharactersInEncounter { campaign_id: CampaignId, encounter_id: EncounterId },
    NotThisPlayersTurn {
        campaign_id: CampaignId,
        encounter_id: EncounterId,
        request_character_id: CharacterId,
        current_character_id: CharacterId,
    },
    ItemIsNotAWeapon { item_id: ItemId },
    CharacterDoesNotHavePosition { character_id: CharacterId },
    WrongCharacterForInteraction {
        operation_id: OperationId,
        interaction_id: InteractionId,
        expected_character_id: CharacterId,
        request_character_id: CharacterId,
    },
    InteractionAlreadyResolved { operation_id: OperationId, interaction_id: InteractionId },
    SpellDoesNotExist { name: Seq<char> },
    CastUsesWrongTargetType { expected_type: SpellTargetType, provided_type: SpellTarget },
    OperationViolatesRules { violations: Seq<Violation> },
    OperationIsNotPending { operation_id: OperationId, legality: LegalityView },
    ExistentialState(Seq<char>),
    FailedDatabaseCall(Seq<char>),
    FailedToSerializeToBson(Seq<char>),
    IoError(Seq<char>),
}

impl View for Error {
    type V = ErrorView;

    open spec fn view(&self) -> ErrorView {
        match *self {
            Error::InvalidJson(text) => ErrorView::InvalidJson(text@),
            Error::InvalidPath(text) => ErrorView::InvalidPath(text@),
            Error::InvalidForm(text) => ErrorView::InvalidForm(text@),
            Error::InvalidQuery(text) => ErrorView::InvalidQuery(text@),
            Error::PathNotFound => ErrorView::PathNotFound,
            Error::CampaignNotFound { campaign_id } => ErrorView::CampaignNotFound { campaign_id },
            Error::CharacterNotFoundInCampaign {
                campaign_id,
                character_id,
            } => ErrorView::CharacterNotFoundInCampaign {
                campaign_id,
                character_id,
            },
            Error::CurrentEncounterNotFound { campaign_id } => ErrorView::CurrentEncounterNotFound {
                campaign_id,
            },
            Error::ItemDoesNotExist { item_id } => ErrorView::ItemDoesNotExist { item_id },
            Error::OperationNotFound {
                encounter_id,
                operation_id,
            } => ErrorView::OperationNotFound {
                encounter_id,
                operation_id,
            },
            Error::InteractionNotFound {
                operation_id,
                interaction_id,
            } => ErrorView::InteractionNotFound {
                operation_id,
                interaction_id,
            },
            Error::ConcurrentModificationDetected => ErrorView::ConcurrentModificationDetected,
            Error::CurrentEncounterAlreadyExists {
                campaign_id,
                encounter_id,
            } => ErrorView::CurrentEncounterAlreadyExists {
                campaign_id,
                encounter_id,
            },
            Error::CharacterNotInCampaign {
                campaign_id,
                character_id,
            } => ErrorView::CharacterNotInCampaign {
                campaign_id,
                character_id,
            },
            Error::CharacterNotInEncounter {
                campaign_id,
                encounter_id,
                character_id,
            } => ErrorView::CharacterNotInEncounter {
                campaign_id,
                encounter_id,
                character_id,
            },
            Error::CharacterAlreadyRolledInitiative {
                campaign_id,
                encounter_id,
                character_id,
            } => ErrorView::CharacterAlreadyRolledInitiative {
                campaign_id,
                encounter_id,
                character_id,
            },
            Error::CharactersHaveNotRolledInitiative {
                campaign_id,
                encounter_id,
                character_ids,
            } => ErrorView::CharactersHaveNotRolledInitiative {
                campaign_id,
                encounter_id,
                character_ids: character_ids@,
            },
            Error::NoCharactersInEncounter {
                campaign_id,
                encounter_id,
            } => ErrorView::NoCharactersInEncounter {
                campaign_id,
                encounter_id,
            },
            Error::NotThisPlayersTurn {
                campaign_id,
                encounter_id,
                request_character_id,
                current_character_id,
            } => ErrorView::NotThisPlayersTurn {
                campaign_id,
                encounter_id,
                request_character_id,
                current_character_id,
            },
            Error::ItemIsNotAWeapon { item_id } => ErrorView::ItemIsNotAWeapon { item_id },
            Error::CharacterDoesNotHavePosition {
                character_id,
            } => ErrorView::CharacterDoesNotHavePosition {
                character_id,
            },
            Error::WrongCharacterForInteraction {
                operation_id,
                interaction_id,
                expected_character_id,
                request_character_id,
            } => ErrorView::WrongCharacterForInteraction {
                operation_id,
                interaction_id,
                expected_character_id,
                request_character_id,
            },
            Error::InteractionAlreadyResolved {
                operation_id,
                interaction_id,
            } => ErrorView::InteractionAlreadyResolved {
                operation_id,
                interaction_id,
            },
            Error::SpellDoesNotExist { name } => ErrorView::SpellDoesNotExist { name: name@ },
            Error::CastUsesWrongTargetType {
                expected_type,
                provided_type,
            } => ErrorView::CastUsesWrongTargetType {
                expected_type,
                provided_type,
            },
            Error::OperationViolatesRules { violations } => ErrorView::OperationViolatesRules {
                violations: violations@,
            },
            Error::OperationIsNotPending {
                operation_id,
                legality,
            } => ErrorView::OperationIsNotPending {
                operation_id,
                legality: legality@,
            },
            Error::ExistentialState(text) => ErrorView::ExistentialState(text@),
            Error::FailedDatabaseCall(text) => ErrorView::FailedDatabaseCall(text@),
            Error::FailedToSerializeToBson(text) => ErrorView::FailedToSerializeToBson(text@),
            Error::IoError(text) => ErrorView::IoError(text@),
        }
    }
}

impl Error {
    /// The HTTP status that reports the error.
    pub open spec fn spec_status_code(&self) -> u16 {
        match *self {
            Error::InvalidJson(_) => BAD_REQUEST,
            Error::InvalidPath(_) => BAD_REQUEST,
            Error::InvalidForm(_) => BAD_REQUEST,
            Error::InvalidQuery(_) => BAD_REQUEST,
            Error::PathNotFound => NOT_FOUND,
            Error::CampaignNotFound { .. } => NOT_FOUND,
            Error::CharacterNotFoundInCampaign { .. } => NOT_FOUND,
            Error::CurrentEncounterNotFound { .. } => NOT_FOUND,
            Error::ItemDoesNotExist { .. } => NOT_FOUND,
            Error::OperationNotFound { .. } => NOT_FOUND,
            Error::InteractionNotFound { .. } => NOT_FOUND,
            Error::ConcurrentModificationDetected => CONFLICT,
            Error::CurrentEncounterAlreadyExists { .. } => CONFLICT,
            Error::CharacterNotInCampaign { .. } => CONFLICT,
            Error::CharacterNotInEncounter { .. } => CONFLICT,
            Error::CharacterAlreadyRolledInitiative { .. } => CONFLICT,
            Error::CharactersHaveNotRolledInitiative { .. } => CONFLICT,
            Error::NoCharactersInEncounter { .. } => CONFLICT,
            Error::NotThisPlayersTurn { .. } => CONFLICT,
            Error::ItemIsNotAWeapon { .. } => CONFLICT,
            Error::CharacterDoesNotHavePosition { .. } => CONFLICT,
            Error::WrongCharacterForInteraction { .. } => CONFLICT,
            Error::InteractionAlreadyResolved { .. } => CONFLICT,
            Error::SpellDoesNotExist { .. } => CONFLICT,
            Error::CastUsesWrongTargetType { .. } => CONFLICT,
            Error::OperationViolatesRules { .. } => CONFLICT,
            Error::OperationIsNotPending { .. } => CONFLICT,
            Error::ExistentialState(_) => INTERNAL_SERVER_ERROR,
            Error::FailedDatabaseCall(_) => INTERNAL_SERVER_ERROR,
            Error::FailedToSerializeToBson(_) => INTERNAL_SERVER_ERROR,
            Error::IoError(_) => INTERNAL_SERVER_ERROR,
        }
    }

    /// The HTTP status that reports the error.
    pub fn status_code(&self) -> (status: u16)
        ensures
            status == self.spec_status_code(),
    {
        match self {
            Error::InvalidJson(_) => BAD_REQUEST,
            Error::InvalidPath(_) => BAD_REQUEST,
            Error::InvalidForm(_) => BAD_REQUEST,
            Error::InvalidQuery(_) => BAD_REQUEST,
            Error::PathNotFound => NOT_FOUND,
            Error::CampaignNotFound { .. } => NOT_FOUND,
            Error::CharacterNotFoundInCampaign { .. } => NOT_FOUND,
            Error::CurrentEncounterNotFound { .. } => NOT_FOUND,
            Error::ItemDoesNotExist { .. } => NOT_FOUND,
            Error::OperationNotFound { .. } => NOT_FOUND,
            Error::InteractionNotFound { .. } => NOT_FOUND,
            Error::ConcurrentModificationDetected => CONFLICT,
            Error::CurrentEncounterAlreadyExists { .. } => CONFLICT,
            Error::CharacterNotInCampaign { .. } => CONFLICT,
            Error::CharacterNotInEncounter { .. } => CONFLICT,
            Error::CharacterAlreadyRolledInitiative { .. } => CONFLICT,
            Error::CharactersHaveNotRolledInitiative { .. } => CONFLICT,
            Error::NoCharactersInEncounter { .. } => CONFLICT,
            Error::NotThisPlayersTurn { .. } => CONFLICT,
            Error::ItemIsNotAWeapon { .. } => CONFLICT,
            Error::CharacterDoesNotHavePosition { .. } => CONFLICT,
            Error::WrongCharacterForInteraction { .. } => CONFLICT,
            Error::InteractionAlreadyResolved { .. } => CONFLICT,
            Error::SpellDoesNotExist { .. } => CONFLICT,
            Error::CastUsesWrongTargetType { .. } => CONFLICT,
            Error::OperationViolatesRules { .. } => CONFLICT,
            Error::OperationIsNotPending { .. } => CONFLICT,
            Error::ExistentialState(_) => INTERNAL_SERVER_ERROR,
            Error::FailedDatabaseCall(_) => INTERNAL_SERVER_ERROR,
            Error::FailedToSerializeToBson(_) => INTERNAL_SERVER_ERROR,
            Error::IoError(_) => INTERNAL_SERVER_ERROR,
        }
    }

    /// The code that names the kind of error.
    pub open spec fn spec_error_code(&self) -> Seq<char> {
        match *self {
            Error::InvalidJson(_) => "E4001000"@,
            Error::InvalidPath(_) => "E4001001"@,
            Error::InvalidForm(_) => "E4001002"@,
            Error::InvalidQuery(_) => "E4001003"@,
            Error::PathNotFound => "E4041000"@,
            Error::CampaignNotFound { .. } => "E4041001"@,
            Error::CharacterNotFoundInCampaign { .. } => "E4041002"@,
            Error::CurrentEncounterNotFound { .. } => "E4041003"@,
            Error::ItemDoesNotExist { .. } => "E4041004"@,
            Error::OperationNotFound { .. } => "E4041005"@,
            Error::InteractionNotFound { .. } => "E4041006"@,
            Error::ConcurrentModificationDetected => "E4091000"@,
            Error::CurrentEncounterAlreadyExists { .. } => "E4091001"@,
            Error::CharacterNotInCampaign { .. } => "E4091002"@,
            Error::CharacterNotInEncounter { .. } => "E4091003"@,
            Error::CharacterAlreadyRolledInitiative { .. } => "E4091004"@,
            Error::CharactersHaveNotRolledInitiative { .. } => "E4091005"@,
            Error::NoCharactersInEncounter { .. } => "E4091006"@,
            Error::NotThisPlayersTurn { .. } => "E4091007"@,
            Error::ItemIsNotAWeapon { .. } => "E4091008"@,
            Error::CharacterDoesNotHavePosition { .. } => "E4091009"@,
            Error::WrongCharacterForInteraction { .. } => "E4091012"@,
            Error::InteractionAlreadyResolved { .. } => "E4091017"@,
            Error::SpellDoesNotExist { .. } => "E4091013"@,
            Error::CastUsesWrongTargetType { .. } => "E4091014"@,
            Error::OperationViolatesRules { .. } => "E4091015"@,
            Error::OperationIsNotPending { .. } => "E4091016"@,
            Error::ExistentialState(_) => "E5001000"@,
            Error::FailedDatabaseCall(_) => "E5001001"@,
            Error::FailedToSerializeToBson(_) => "E5001002"@,
            Error::IoError(_) => "E5001003"@,
        }
    }

    /// The code that names the kind of error.
    pub fn error_code(&self) -> (code: &'static str)
        ensures
            code@ == self.spec_error_code(),
    {
        match self {
            Error::InvalidJson(_) => "E4001000",
            Error::InvalidPath(_) => "E4001001",
            Error::InvalidForm(_) => "E4001002",
            Error::InvalidQuery(_) => "E4001003",
            Error::PathNotFound => "E4041000",
            Error::CampaignNotFound { .. } => "E4041001",
            Error::CharacterNotFoundInCampaign { .. } => "E4041002",
            Error::CurrentEncounterNotFound { .. } => "E4041003",
            Error::ItemDoesNotExist { .. } => "E4041004",
            Error::OperationNotFound { .. } => "E4041005",
            Error::InteractionNotFound { .. } => "E4041006",
            Error::ConcurrentModificationDetected => "E4091000",
            Error::CurrentEncounterAlreadyExists { .. } => "E4091001",
            Error::CharacterNotInCampaign { .. } => "E4091002",
            Error::CharacterNotInEncounter { .. } => "E4091003",
            Error::CharacterAlreadyRolledInitiative { .. } => "E4091004",
            Error::CharactersHaveNotRolledInitiative { .. } => "E4091005",
            Error::NoCharactersInEncounter { .. } => "E4091006",
            Error::NotThisPlayersTurn { .. } => "E4091007",
            Error::ItemIsNotAWeapon { .. } => "E4091008",
            Error::CharacterDoesNotHavePosition { .. } => "E4091009",
            Error::WrongCharacterForInteraction { .. } => "E4091012",
            Error::InteractionAlreadyResolved { .. } => "E4091017",
            Error::SpellDoesNotExist { .. } => "E4091013",
            Error::CastUsesWrongTargetType { .. } => "E4091014",
            Error::OperationViolatesRules { .. } => "E4091015",
            Error::OperationIsNotPending { .. } => "E4091016",
            Error::ExistentialState(_) => "E5001000",
            Error::FailedDatabaseCall(_) => "E5001001",
            Error::FailedToSerializeToBson(_) => "E5001002",
            Error::IoError(_) => "E5001003",
        }
    }

    /// The sentence that describes the kind of error.
    pub open spec fn spec_error_message(&self) -> Seq<char> {
        match *self {
            Error::InvalidJson(_) => "The given json could not be parsed"@,
            Error::InvalidPath(_) => "The given path could not be parsed"@,
            Error::InvalidForm(_) => "The given form could not be parsed"@,
            Error::InvalidQuery(_) => "The given query could not be parsed"@,
            Error::PathNotFound => "The requested path was not found"@,
            Error::CampaignNotFound { .. } => "The requested campaign was not found"@,
            Error::CharacterNotFoundInCampaign { .. } => {
                "The requested character was not found in the campaign"@
            },
            Error::CurrentEncounterNotFound { .. } => {
                "The requested campaign is not currently in an encounter"@
            },
            Error::ItemDoesNotExist { .. } => "The requested item was not found"@,
            Error::OperationNotFound { .. } => "The requested operation was not found"@,
            Error::InteractionNotFound { .. } => "The requested interaction was not found"@,
            Error::ConcurrentModificationDetected => {
                "The server detected a concurrent modification"@
            },
            Error::CurrentEncounterAlreadyExists { .. } => {
                "The requested campaign is currently in an encounter"@
            },
            Error::CharacterNotInCampaign { .. } => {
                "The requested operation uses a character that is not in the campaign"@
            },
            Error::CharacterNotInEncounter { .. } => {
                "The requested operation uses a character that is not in the encounter"@
            },
            Error::CharacterAlreadyRolledInitiative { .. } => {
                "The requested character has already rolled initiative"@
            },
            Error::CharactersHaveNotRolledInitiative { .. } => {
                "The requested encounter has characters that have not rolled initiative"@
            },
            Error::NoCharactersInEncounter { .. } => {
                "The requested encounter has no characters to start with"@
            },
            Error::NotThisPlayersTurn { .. } => {
                "The requested player does not have permission for this turn"@
            },
            Error::ItemIsNotAWeapon { .. } => "The provided item was expected to be a weapon"@,
            Error::CharacterDoesNotHavePosition { .. } => {
                "The requested character does not have a position"@
            },
            Error::WrongCharacterForInteraction { .. } => {
                "The requested interaction is intended for a different character"@
            },
            Error::InteractionAlreadyResolved { .. } => {
                "The requested interaction already has a result"@
            },
            Error::SpellDoesNotExist { .. } => "The requested spell does not exist"@,
            Error::CastUsesWrongTargetType { .. } => {
                "The provided target is a different type than what is expected"@
            },
            Error::OperationViolatesRules { .. } => "The requested operation violates the rules"@,
            Error::OperationIsNotPending { .. } => {
                "The requested operation's legality is not pending"@
            },
            Error::ExistentialState(_) => "The server detected an invalid state"@,
            Error::FailedDatabaseCall(_) => {
                "An error occurred when communicating with the database"@
            },
            Error::FailedToSerializeToBson(_) => {
                "An error occurred when serializing an object to bson"@
            },
            Error::IoError(_) => "An error occurred during an I/O operation"@,
        }
    }

    /// The sentence that describes the kind of error.
    pub fn error_message(&self) -> (message: &'static str)
        ensures
            message@ == self.spec_error_message(),
    {
        match self {
            Error::InvalidJson(_) => "The given json could not be parsed",
            Error::InvalidPath(_) => "The given path could not be parsed",
            Error::InvalidForm(_) => "The given form could not be parsed",
            Error::InvalidQuery(_) => "The given query could not be parsed",
            Error::PathNotFound => "The requested path was not found",
            Error::CampaignNotFound { .. } => "The requested campaign was not found",
            Error::CharacterNotFoundInCampaign { .. } => {
                "The requested character was not found in the campaign"
            },
            Error::CurrentEncounterNotFound { .. } => {
                "The requested campaign is not currently in an encounter"
            },
            Error::ItemDoesNotExist { .. } => "The requested item was not found",
            Error::OperationNotFound { .. } => "The requested operation was not found",
            Error::InteractionNotFound { .. } => "The requested interaction was not found",
            Error::ConcurrentModificationDetected => {
                "The server detected a concurrent modification"
            },
            Error::CurrentEncounterAlreadyExists { .. } => {
                "The requested campaign is currently in an encounter"
            },
            Error::CharacterNotInCampaign { .. } => {
                "The requested operation uses a character that is not in the campaign"
            },
            Error::CharacterNotInEncounter { .. } => {
                "The requested operation uses a character that is not in the encounter"
            },
            Error::CharacterAlreadyRolledInitiative { .. } => {
                "The requested character has already rolled initiative"
            },
            Error::CharactersHaveNotRolledInitiative { .. } => {
                "The requested encounter has characters that have not rolled initiative"
            },
            Error::NoCharactersInEncounter { .. } => {
                "The requested encounter has no characters to start with"
            },
            Error::NotThisPlayersTurn { .. } => {
                "The requested player does not have permission for this turn"
            },
            Error::ItemIsNotAWeapon { .. } => "The provided item was expected to be a weapon",
            Error::CharacterDoesNotHavePosition { .. } => {
                "The requested character does not have a position"
            },
            Error::WrongCharacterForInteraction { .. } => {
                "The requested interaction is intended for a different character"
            },
            Error::InteractionAlreadyResolved { .. } => {
                "The requested interaction already has a result"
            },
            Error::SpellDoesNotExist { .. } => "The requested spell does not exist",
            Error::CastUsesWrongTargetType { .. } => {
                "The provided target is a different type than what is expected"
            },
            Error::OperationViolatesRules { .. } => "The requested operation violates the rules",
            Error::OperationIsNotPending { .. } => {
                "The requested operation's legality is not pending"
            },
            Error::ExistentialState(_) => "The server detected an invalid state",
            Error::FailedDatabaseCall(_) => {
                "An error occurred when communicating with the database"
            },
            Error::FailedToSerializeToBson(_) => {
                "An error occurred when serializing an object to bson"
            },
            Error::IoError(_) => "An error occurred during an I/O operation",
        }
    }
}

} // verus!
