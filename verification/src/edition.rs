use crate::error::{MetadataError, OperationError};
use crate::pubkey::Pubkey;
use crate::state::{Edition, EditionMarker, Key, MasterEdition};
use vstd::prelude::*;

verus! {

/// The number of prints that one edition marker keeps the books for.
pub const EDITION_MARKER_BIT_SIZE: u64 = 248;

/// The place of a print among the 248 bits of its marker.
pub open spec fn spec_marker_offset(edition: u64) -> int {
    edition as int % 248
}

/// The byte of the ledger that holds the bit of a print.
pub open spec fn spec_marker_index(edition: u64) -> int {
    spec_marker_offset(edition) / 8
}

/// The bit of a print within its byte: the first print of a byte has the
/// highest bit.
pub open spec fn spec_marker_mask(edition: u64) -> u8 {
    let place = spec_marker_offset(edition) % 8;
    if place == 0 {
        0x80
    } else if place == 1 {
        0x40
    } else if place == 2 {
        0x20
    } else if place == 3 {
        0x10
    } else if place == 4 {
        0x08
    } else if place == 5 {
        0x04
    } else if place == 6 {
        0x02
    } else {
        0x01
    }
}

/// The byte of the ledger that holds the bit of a print, and the bit.
pub fn get_index_and_mask(edition: u64) -> (r: (usize, u8))
    ensures
        r.0 == spec_marker_index(edition),
        r.0 < 31,
        r.1 == spec_marker_mask(edition),
{
    let offset: u64 = edition % EDITION_MARKER_BIT_SIZE;
    let index: usize = (offset / 8) as usize;
    let place: u64 = offset % 8;
    let mask: u8 = if place == 0 {
        0x80
    } else if place == 1 {
        0x40
    } else if place == 2 {
        0x20
    } else if place == 3 {
        0x10
    } else if place == 4 {
        0x08
    } else if place == 5 {
        0x04
    } else if place == 6 {
        0x02
    } else {
        0x01
    };
    (index, mask)
}

impl EditionMarker {
    /// Whether the books hold the print of the given number.
    pub open spec fn spec_edition_taken(&self, edition: u64) -> bool {
        self.ledger@[spec_marker_index(edition)] & spec_marker_mask(edition) != 0
    }

    /// Tells whether the books hold the print of the given number.
    #[verifier::when_used_as_spec(spec_edition_taken)]
    pub fn edition_taken(&self, edition: u64) -> (taken: bool)
        ensures
            taken == self.spec_edition_taken(edition),
    {
        let (index, mask) = get_index_and_mask(edition);
        self.ledger[index] & mask != 0
    }

    /// The books without the print of the given number: its bit is cleared
    /// and every other bit is as it was.
    pub open spec fn without_edition(self, edition: u64) -> EditionMarker {
        EditionMarker {
            ledger: vstd::array::spec_array_update(
                self.ledger,
                spec_marker_index(edition),
                self.ledger@[spec_marker_index(edition)] & !spec_marker_mask(edition),
            ),
            ..self
        }
    }
}

impl MasterEdition {
    /// The master edition with one print less.
    pub open spec fn with_one_print_less(self) -> MasterEdition {
        MasterEdition { supply: (self.supply - 1) as u64, ..self }
    }
}

/// Why a print cannot be taken out of the books of a master edition, if it
/// cannot: one of the three records is of another kind, the print was not
/// made of this master edition, or the master edition counts no print.
pub open spec fn unlink_error(
    print: Edition,
    parent: Pubkey,
    master: MasterEdition,
    marker: EditionMarker,
) -> Option<MetadataError> {
    if print.key != Key::EditionV1 || (master.key != Key::MasterEditionV1 && master.key
        != Key::MasterEditionV2) || marker.key != Key::EditionMarker {
        Some(MetadataError::DataTypeMismatch)
    } else if print.parent != parent {
        Some(MetadataError::PrintEditionDoesNotMatchMasterEdition)
    } else if master.supply == 0 {
        Some(MetadataError::NumericalOverflowError)
    } else {
        None
    }
}

/// Takes a print out of the books of its master edition.
///
/// `parent` is the address of the master edition account; the print has to
/// name it. The supply of the master edition goes down by one, and the
/// marker forgets the number of the print. Nothing is taken out where the
/// print does not belong to the master edition.
pub fn unlink_edition(
    print: &Edition,
    parent: &Pubkey,
    master: &MasterEdition,
    marker: &EditionMarker,
) -> (r: Result<(MasterEdition, EditionMarker), OperationError>)
    ensures
        r == match unlink_error(*print, *parent, *master, *marker) {
            Some(e) => Err::<(MasterEdition, EditionMarker), OperationError>(
                OperationError::Custom(e),
            ),
            None => Ok::<(MasterEdition, EditionMarker), OperationError>(
                (master.with_one_print_less(), marker.without_edition(print.edition)),
            ),
        },
{
    let kinds = match (print.key, master.key, marker.key) {
        (Key::EditionV1, Key::MasterEditionV1, Key::EditionMarker) => true,
        (Key::EditionV1, Key::MasterEditionV2, Key::EditionMarker) => true,
        _ => false,
    };
    if !kinds {
        return Err(OperationError::Custom(MetadataError::DataTypeMismatch));
    }
    if print.parent != *parent {
        return Err(OperationError::Custom(MetadataError::PrintEditionDoesNotMatchMasterEdition));
    }
    if master.supply == 0 {
        return Err(OperationError::Custom(MetadataError::NumericalOverflowError));
    }
    let (index, mask) = get_index_and_mask(print.edition);
    let mut ledger = marker.ledger;
    let byte: u8 = ledger[index] & !mask;
    ledger[index] = byte;
    let unlinked = EditionMarker { key: marker.key, ledger };
    proof {
        assert(unlinked.ledger@ =~= marker.without_edition(print.edition).ledger@);
        assert(unlinked.ledger == marker.without_edition(print.edition).ledger);
    }
    Ok(
        (
            MasterEdition { key: master.key, supply: master.supply - 1, max_supply: master.max_supply },
            unlinked,
        ),
    )
}

} // verus!
