use vstd::prelude::*;

use crate::board::bitboard::Bitboard;
use crate::board::square::Square;
use crate::movegen::wizardry::mask::slider_attacks;

pub mod generation;
pub mod mask;


pub use generation::{generate_bishop_magics, generate_magics, generate_rook_magics, try_magic};
pub use mask::{generate_bishop_mask, generate_rook_mask, Slider};

verus! {

/// A set of magic numbers for bishop move generation.
pub const BISHOP_SEED: [u64; 64] = [
    4634226011293351952,
    6918109887683821586,
    76562328660738184,
    7242919606867744800,
    13871652069997347969,
    1171657252671901696,
    147001475087730752,
    1752045392763101248,
    288406435526639744,
    4612213818402029888,
    9808848818951710728,
    9223394181731320840,
    54047645651435648,
    9224780030482579712,
    9049059098626048,
    1442330840700035221,
    1126037887157508,
    1153488887004529665,
    290485130928332936,
    9226749771011592258,
    148636405693678112,
    2260596997758984,
    73470481646424336,
    2341907012146823680,
    2314955761652335121,
    2265544246165632,
    13598764778463296,
    563087425962496,
    563087425962048,
    2163991853573081088,
    567353402270020,
    6488844433713538048,
    288810987011448834,
    11830884701569344,
    2747549955031826688,
    35734665298432,
    18025943920672800,
    292892945404789012,
    1153520472160470528,
    2260949167801860,
    155446765112299521,
    379008324189818944,
    4616480181217005576,
    576461027453960704,
    2450556349601564416,
    1160556519943569536,
    4612900059821375552,
    5477089643453251617,
    9223532084785594632,
    2810391870219355200,
    36594222015453185,
    4612011546951352320,
    2392883590201344,
    1152956706186200064,
    9009415592510464,
    81077999302148128,
    576746627483043968,
    301267327789056,
    39586720976896,
    720878306081243648,
    9223512777841312257,
    5764609859566698625,
    8088544233436348496,
    4612856276794474560,
];

/// A set of magic numbers for rook move generation.
pub const ROOK_SEED: [u64; 64] = [
    180144122814791812,
    10448386594766422036,
    9403533616331358856,
    108095189301858304,
    72076290316044288,
    36066182562054145,
    4647717564258980096,
    13979173385364603396,
    4620833992751489152,
    297800804633419904,
    578009002156298240,
    2450099003505838082,
    1175721046778052864,
    20406952999780864,
    1175861788231598592,
    36169538802827392,
    288371663414771712,
    423313050501155,
    604731668136450,
    580261214513399808,
    297661437206136832,
    1750211954976489600,
    9020393411186696,
    9259543770406356001,
    44532368556032,
    10376381507760693256,
    52778707714176,
    4612829512676149248,
    1882513444629184528,
    2369460754144428160,
    9223380850137104901,
    2666413562481640036,
    141012643087392,
    16735517094631719424,
    17594358702087,
    2344264412262574084,
    422813768878080,
    1126450811896320,
    54466576291772936,
    42784758060548372,
    292874851780165648,
    18015364885839937,
    282644818493504,
    1184447393488764944,
    4649966632473477184,
    563499910594566,
    17632049496086,
    18502729728001,
    140742121013504,
    9711024139665536,
    246293205270784,
    290772515771392256,
    9230131836490350720,
    73326432604127360,
    453174886517643776,
    2396271245728563712,
    324259242966026501,
    288953994406543363,
    1153557061259362338,
    40533496293515441,
    1407392197644307,
    1729945211427624002,
    587808330812164100,
    9511606812128903298,
];

/// A type representing the magic board indexing a given [crate::board::Square].
#[derive(Clone, Debug)]
pub struct Magic {
    /// Magic number.
    pub magic: u64,
    /// Base offset into the magic square table.
    pub offset: usize,
    /// Mask to apply to the blocker board before applying the magic.
    pub mask: Bitboard,
    /// Length of the resulting mask after applying the magic.
    pub shift: u8,
}

impl Magic {
    /// The index of a set of blockers within the table of the square: the blockers within the
    /// mask, multiplied by the magic number, and of the product the bits above the shift.
    pub open spec fn local_index(self, blockers: u64) -> u64 {
        (blockers & self.mask.0).wrapping_mul(self.magic) >> (self.shift as u64)
    }

    /// The index of a set of blockers in the table of all squares.
    pub open spec fn spec_index(self, blockers: u64) -> int {
        self.local_index(blockers) + self.offset
    }

    /// Whether the shift is one that a machine word can take, and every index fits its type.
    pub open spec fn fits(self) -> bool {
        self.shift < 64 && (0xffff_ffff_ffff_ffffu64 >> (self.shift as u64)) + self.offset
            <= usize::MAX
    }

    /// Compute the index into the magics database for this set of `blockers`.
    pub fn get_index(&self, blockers: Bitboard) -> (index: usize)
        requires
            self.fits(),
        ensures
            index == self.spec_index(blockers.0),
    {
        let relevant_occupancy = (blockers & self.mask).0;
        let product = relevant_occupancy.wrapping_mul(self.magic);
        proof {
            lemma_shifted_product(product, self.shift as u64);
        }
        let base_index = (product >> (self.shift as u64)) as usize;
        base_index + self.offset
    }
}

/// A word shifted right is no larger than the largest word shifted as far, and with a shift of
/// at least one bit it is smaller than the power of two that the shift leaves room for.
pub proof fn lemma_shifted_product(product: u64, shift: u64)
    by (bit_vector)
    requires
        shift < 64,
    ensures
        product >> shift <= 0xffff_ffff_ffff_ffffu64 >> shift,
        shift > 0 ==> product >> shift < 1u64 << ((64 - shift) as u64),
        shift > 0 ==> 0xffff_ffff_ffff_ffffu64 >> shift < 1u64 << ((64 - shift) as u64),
{
}

/// Whether the first `squares` magics lead, for every set of blockers, to an entry of the table
/// that holds what the slider attacks from the square of the magic given those blockers.
pub open spec fn tabulates(
    magics: Seq<Magic>,
    moves: Seq<Bitboard>,
    slider: Slider,
    squares: int,
) -> bool {
    &&& squares <= magics.len()
    &&& forall|index: int| 0 <= index < squares ==> (#[trigger] magics[index]).fits()
    &&& forall|index: int, blockers: u64|
        0 <= index < squares ==> {
            &&& 0 <= #[trigger] magics[index].spec_index(blockers) < moves.len()
            &&& moves[magics[index].spec_index(blockers)].0 == slider_attacks(
                slider,
                1u64 << (index as u64),
                blockers,
            )
        }
}

/// A type encapsulating a database of [Magic] bitboard moves.
#[derive(Clone, Debug)]
pub struct MagicMoves {
    pub magics: Vec<Magic>,
    pub moves: Vec<Bitboard>,
}

impl MagicMoves {
    /// Whether this is the attack table of a slider, for all squares.
    pub open spec fn serves(self, slider: Slider) -> bool {
        tabulates(self.magics@, self.moves@, slider, 64)
    }

    /// Initialize a new [MagicMoves] given a matching list of [Magic] and its corresponding moves
    /// as a [Bitboard]: values that [crate::movegen::wizardry::generation::generate_magics]
    /// returned.
    pub fn new(magics: Vec<Magic>, moves: Vec<Bitboard>) -> (table: MagicMoves)
        requires
            tabulates(magics@, moves@, Slider::Bishop, 64) || tabulates(
                magics@,
                moves@,
                Slider::Rook,
                64,
            ),
        ensures
            table.magics == magics,
            table.moves == moves,
    {
        MagicMoves { magics, moves }
    }

    /// Get the set of valid moves for a piece standing on a [Square], given a set of blockers:
    /// what the slider of the table attacks from the square.
    pub fn query(&self, square: Square, blockers: Bitboard) -> (moves: Bitboard)
        requires
            self.serves(Slider::Bishop) || self.serves(Slider::Rook),
        ensures
            forall|slider: Slider|
                self.serves(slider) ==> moves.0 == slider_attacks(
                    slider,
                    square.bit(),
                    blockers.0,
                ),
    {
        let magic = &self.magics[square.index()];
        let index = magic.get_index(blockers);
        self.moves[index]
    }
}

} // verus!
