//! The support matrix: which functionality is supported on which board,
//! with the checks that the description of the matrix has to pass.
//!
//! Chips and boards are kept in the order in which they were given, each
//! under its technical name.

use vstd::prelude::*;
use vstd::multiset::Multiset;
use vstd::seq_lib::{to_multiset_build, to_multiset_remove};

verus! {

/// How well something is supported, and how that is shown.
pub struct SupportKeyInfo {
    pub name: String,
    pub icon: String,
    pub description: String,
}

/// Something a board can do.
pub struct FunctionalityInfo {
    pub name: String,
    pub title: String,
    pub description: String,
}

/// What is known of the support of one functionality.
pub enum SupportInfo {
    /// The name of a support key.
    StatusOnly(String),
    /// The name of a support key with remarks.
    Details { status: String, comments: Option<Vec<String>>, link: Option<String> },
}

/// A chip, with the support it gives to each functionality it names.
pub struct ChipInfo {
    pub name: String,
    pub description: Option<String>,
    pub support: Vec<(String, SupportInfo)>,
}

/// A board, with the support it gives to each functionality it names. A
/// functionality that it does not name is supported as on its chip.
pub struct BoardInfo {
    pub name: String,
    pub description: Option<String>,
    pub url: String,
    pub chip: String,
    pub tier: String,
    pub support: Vec<(String, SupportInfo)>,
}

/// The support matrix.
///
/// Chips and boards stand under their technical names, and what each says
/// of a functionality under the name of the functionality. A matrix is
/// well formed (`wf`) if no such name occurs twice.
pub struct Matrix {
    pub support_keys: Vec<SupportKeyInfo>,
    pub functionalities: Vec<FunctionalityInfo>,
    pub chips: Vec<(String, ChipInfo)>,
    pub boards: Vec<(String, BoardInfo)>,
}

/// What can be wrong with a support matrix.
#[derive(Debug)]
pub enum Error {
    /// A board names a chip that the matrix does not hold.
    InvalidChipName { found: String, board: String },
    /// A board names a functionality that the matrix does not hold.
    InvalidFunctionalityNameBoard { found: String, board: String },
    /// A chip names a functionality that the matrix does not hold.
    InvalidFunctionalityNameChip { found: String, chip: String },
    /// A board names a support key that the matrix does not hold.
    InvalidSupportKeyNameBoard { found: String, functionality: String, board: String },
    /// A chip names a support key that the matrix does not hold.
    InvalidSupportKeyNameChip { found: String, functionality: String, chip: String },
    /// Neither a board nor its chip says how a functionality is supported.
    MissingSupportInfo { board: String, chip: String, functionality: String },
}

impl SupportInfo {
    /// The name of the support key.
    pub open spec fn spec_status(&self) -> Seq<char> {
        match self {
            SupportInfo::StatusOnly(status) => status@,
            SupportInfo::Details { status, .. } => status@,
        }
    }

    /// Returns the name of the support key.
    pub fn status(&self) -> (s: &str)
        ensures
            s@ == self.spec_status(),
    {
        match self {
            SupportInfo::StatusOnly(status) => status.as_str(),
            SupportInfo::Details { status, .. } => status.as_str(),
        }
    }
}

/// Whether the matrix holds a functionality of the name `name`.
pub open spec fn is_functionality(fs: Seq<FunctionalityInfo>, name: Seq<char>) -> bool {
    exists|k: int| 0 <= k < fs.len() && (#[trigger] fs[k]).name@ == name
}

/// Whether entry `j` of `support` is the first that names no functionality
/// of `fs`.
pub open spec fn first_invalid(
    fs: Seq<FunctionalityInfo>,
    support: Seq<(String, SupportInfo)>,
    j: int,
) -> bool {
    &&& 0 <= j < support.len()
    &&& !is_functionality(fs, support[j].0@)
    &&& forall|i: int| 0 <= i < j ==> is_functionality(fs, (#[trigger] support[i]).0@)
}

/// Whether every entry of `support` names a functionality of `fs`.
pub open spec fn all_valid(fs: Seq<FunctionalityInfo>, support: Seq<(String, SupportInfo)>) -> bool {
    forall|i: int| 0 <= i < support.len() ==> is_functionality(fs, (#[trigger] support[i]).0@)
}

/// Whether every board before `b` names functionalities of the matrix only.
pub open spec fn boards_valid_before(m: &Matrix, b: int) -> bool {
    forall|i: int|
        0 <= i < b && i < m.boards@.len() ==> all_valid(
            m.functionalities@,
            (#[trigger] m.boards@[i]).1.support@,
        )
}

/// Whether every chip before `c` names functionalities of the matrix only.
pub open spec fn chips_valid_before(m: &Matrix, c: int) -> bool {
    forall|i: int|
        0 <= i < c && i < m.chips@.len() ==> all_valid(
            m.functionalities@,
            (#[trigger] m.chips@[i]).1.support@,
        )
}

/// Whether `name` is the name of a functionality of `fs`.
pub fn names_functionality(fs: &Vec<FunctionalityInfo>, name: &String) -> (found: bool)
    ensures
        found <==> is_functionality(fs@, name@),
{
    let mut k: usize = 0;
    while k < fs.len()
        invariant
            k <= fs@.len(),
            forall|i: int| 0 <= i < k ==> (#[trigger] fs@[i]).name@ != name@,
        decreases fs@.len() - k,
    {
        if fs[k].name == *name {
            return true;
        }
        k += 1;
    }
    false
}

/// Returns the first entry of `support` that names no functionality of
/// `fs`, if there is one.
pub fn find_invalid(fs: &Vec<FunctionalityInfo>, support: &Vec<(String, SupportInfo)>) -> (r:
    Option<usize>)
    ensures
        match r {
            Some(j) => first_invalid(fs@, support@, j as int),
            None => all_valid(fs@, support@),
        },
{
    let mut j: usize = 0;
    while j < support.len()
        invariant
            j <= support@.len(),
            forall|i: int| 0 <= i < j ==> is_functionality(fs@, (#[trigger] support@[i]).0@),
        decreases support@.len() - j,
    {
        if !names_functionality(fs, &support[j].0) {
            return Some(j);
        }
        j += 1;
    }
    None
}

/// Checks that boards and chips name functionalities of the matrix only.
///
/// Boards are checked first, in their order, then chips. The error names
/// the first name that is not a functionality, and the board or chip that
/// holds it.
pub fn validate_input(matrix: &Matrix) -> (r: Result<(), Error>)
    requires
        matrix.wf(),
    ensures
        r.is_ok() <==> boards_valid_before(matrix, matrix.boards@.len() as int)
            && chips_valid_before(matrix, matrix.chips@.len() as int),
        r matches Err(e) ==> (e matches Error::InvalidFunctionalityNameBoard { found, board }
            && exists|b: int, j: int|
            {
                &&& 0 <= b < matrix.boards@.len()
                &&& boards_valid_before(matrix, b)
                &&& first_invalid(matrix.functionalities@, matrix.boards@[b].1.support@, j)
                &&& found@ == matrix.boards@[b].1.support@[j].0@
                &&& board@ == matrix.boards@[b].1.name@
            }) || (e matches Error::InvalidFunctionalityNameChip { found, chip }
            && boards_valid_before(matrix, matrix.boards@.len() as int) && exists|c: int, j: int|
            {
                &&& 0 <= c < matrix.chips@.len()
                &&& chips_valid_before(matrix, c)
                &&& first_invalid(matrix.functionalities@, matrix.chips@[c].1.support@, j)
                &&& found@ == matrix.chips@[c].1.support@[j].0@
                &&& chip@ == matrix.chips@[c].1.name@
            }),
{
    let mut b: usize = 0;
    while b < matrix.boards.len()
        invariant
            b <= matrix.boards@.len(),
            boards_valid_before(matrix, b as int),
        decreases matrix.boards@.len() - b,
    {
        let board_info = &matrix.boards[b].1;
        match find_invalid(&matrix.functionalities, &board_info.support) {
            Some(j) => {
                let found = board_info.support[j].0.clone();
                let board = board_info.name.clone();
                proof {
                    assert(!all_valid(matrix.functionalities@, matrix.boards@[b as int].1.support@));
                }
                return Err(Error::InvalidFunctionalityNameBoard { found, board });
            },
            None => {},
        }
        b += 1;
    }
    let mut c: usize = 0;
    while c < matrix.chips.len()
        invariant
            c <= matrix.chips@.len(),
            boards_valid_before(matrix, matrix.boards@.len() as int),
            chips_valid_before(matrix, c as int),
        decreases matrix.chips@.len() - c,
    {
        let chip_info = &matrix.chips[c].1;
        match find_invalid(&matrix.functionalities, &chip_info.support) {
            Some(j) => {
                let found = chip_info.support[j].0.clone();
                let chip = chip_info.name.clone();
                proof {
                    assert(!all_valid(matrix.functionalities@, matrix.chips@[c as int].1.support@));
                }
                return Err(Error::InvalidFunctionalityNameChip { found, chip });
            },
            None => {},
        }
        c += 1;
    }
    Ok(())
}

/// Board support tier.
#[derive(Debug, Copy, Clone, PartialEq, Eq, Structural)]
pub enum SupportTier {
    Tier1,
    Tier2,
    Tier3,
}

impl SupportTier {
    /// The number of the tier, as it is written in the matrix.
    pub open spec fn spec_name(&self) -> Seq<char> {
        match self {
            SupportTier::Tier1 => "1"@,
            SupportTier::Tier2 => "2"@,
            SupportTier::Tier3 => "3"@,
        }
    }

    /// The tier that the argument `value` names, if it names one.
    pub open spec fn named(value: Seq<char>) -> Option<SupportTier> {
        if value == "tier-1"@ || value == "1"@ {
            Some(SupportTier::Tier1)
        } else if value == "tier-2"@ || value == "2"@ {
            Some(SupportTier::Tier2)
        } else if value == "tier-3"@ || value == "3"@ {
            Some(SupportTier::Tier3)
        } else {
            None
        }
    }

    /// Reads a tier from a command line argument: `tier-1` or `1`, and so
    /// on up to 3.
    pub fn from_arg_value(value: &str) -> (r: Result<SupportTier, String>)
        ensures
            match SupportTier::named(value@) {
                Some(t) => r == Ok::<SupportTier, String>(t),
                None => r matches Err(msg) && msg@ == "invalid board support tier"@,
            },
    {
        let v = value.to_owned();
        if v == "tier-1".to_owned() || v == "1".to_owned() {
            Ok(SupportTier::Tier1)
        } else if v == "tier-2".to_owned() || v == "2".to_owned() {
            Ok(SupportTier::Tier2)
        } else if v == "tier-3".to_owned() || v == "3".to_owned() {
            Ok(SupportTier::Tier3)
        } else {
            Err("invalid board support tier".to_owned())
        }
    }

    /// Returns the number of the tier, as it is written in the matrix.
    pub fn to_string(&self) -> (s: String)
        ensures
            s@ == self.spec_name(),
    {
        match self {
            SupportTier::Tier1 => "1".to_owned(),
            SupportTier::Tier2 => "2".to_owned(),
            SupportTier::Tier3 => "3".to_owned(),
        }
    }
}

/// The first index from `from` on at which `names` holds `name`, if there
/// is one.
pub open spec fn first_match(names: Seq<Seq<char>>, name: Seq<char>, from: int) -> Option<int>
    decreases names.len() - from,
{
    if from < 0 || from >= names.len() {
        None
    } else if names[from] == name {
        Some(from)
    } else {
        first_match(names, name, from + 1)
    }
}

/// The names under which `pairs` holds its entries, in order.
pub open spec fn pair_names<V>(pairs: Seq<(String, V)>) -> Seq<Seq<char>> {
    Seq::new(pairs.len(), |i: int| pairs[i].0@)
}

/// The names under which `support` holds its entries, in order.
pub open spec fn support_names(support: Seq<(String, SupportInfo)>) -> Seq<Seq<char>> {
    pair_names(support)
}

/// The technical names of the chips, in order.
pub open spec fn chip_names(chips: Seq<(String, ChipInfo)>) -> Seq<Seq<char>> {
    pair_names(chips)
}

/// The technical names of the boards, in order.
pub open spec fn board_names(boards: Seq<(String, BoardInfo)>) -> Seq<Seq<char>> {
    pair_names(boards)
}

/// Whether no name occurs twice in `names`.
pub open spec fn names_unique(names: Seq<Seq<char>>) -> bool {
    forall|i: int, j: int| 0 <= i < j < names.len() ==> names[i] != names[j]
}

/// Where no name occurs twice, the place at which a name stands is the
/// only one, and it is the one that a search from the start finds.
pub proof fn lemma_unique_match(names: Seq<Seq<char>>, name: Seq<char>, j: int)
    requires
        names_unique(names),
        0 <= j < names.len(),
        names[j] == name,
    ensures
        first_match(names, name, 0) == Some(j),
        forall|i: int| 0 <= i < names.len() && names[i] == name ==> i == j,
{
    lemma_first_match_skip(names, name, 0, j);
}

impl Matrix {
    /// Chips and boards are found by their technical names, and what a
    /// chip or a board says of a functionality by the name of the
    /// functionality: none of these names occurs twice where it is looked
    /// up.
    pub open spec fn wf(&self) -> bool {
        &&& names_unique(chip_names(self.chips@))
        &&& names_unique(board_names(self.boards@))
        &&& forall|c: int|
            0 <= c < self.chips@.len() ==> names_unique(
                support_names((#[trigger] self.chips@[c]).1.support@),
            )
        &&& forall|b: int|
            0 <= b < self.boards@.len() ==> names_unique(
                support_names((#[trigger] self.boards@[b]).1.support@),
            )
    }

    /// Whether the matrix is well formed.
    pub fn is_wf(&self) -> (ok: bool)
        ensures
            ok == self.wf(),
    {
        if !unique_names(&self.chips) || !unique_names(&self.boards) {
            return false;
        }
        let mut c: usize = 0;
        while c < self.chips.len()
            invariant
                c <= self.chips@.len(),
                forall|i: int|
                    0 <= i < c ==> names_unique(
                        support_names((#[trigger] self.chips@[i]).1.support@),
                    ),
            decreases self.chips@.len() - c,
        {
            if !unique_names(&self.chips[c].1.support) {
                return false;
            }
            c += 1;
        }
        let mut b: usize = 0;
        while b < self.boards.len()
            invariant
                b <= self.boards@.len(),
                forall|i: int|
                    0 <= i < b ==> names_unique(
                        support_names((#[trigger] self.boards@[i]).1.support@),
                    ),
            decreases self.boards@.len() - b,
        {
            if !unique_names(&self.boards[b].1.support) {
                return false;
            }
            b += 1;
        }
        true
    }
}

/// Whether no name occurs twice among the names of `pairs`.
pub fn unique_names<V>(pairs: &Vec<(String, V)>) -> (ok: bool)
    ensures
        ok == names_unique(pair_names(pairs@)),
{
    let ghost names = pair_names(pairs@);
    let mut j: usize = 0;
    while j < pairs.len()
        invariant
            j <= pairs@.len(),
            names == pair_names(pairs@),
            forall|a: int, b: int| 0 <= a < b < j ==> names[a] != names[b],
        decreases pairs@.len() - j,
    {
        let mut i: usize = 0;
        while i < j
            invariant
                i <= j,
                j < pairs@.len(),
                names == pair_names(pairs@),
                forall|a: int| 0 <= a < i ==> names[a] != names[j as int],
            decreases j - i,
        {
            if pairs[i].0 == pairs[j].0 {
                proof {
                    assert(names[i as int] == names[j as int]);
                }
                return false;
            }
            i += 1;
        }
        j += 1;
    }
    true
}

/// The names of the support keys, in order.
pub open spec fn key_names(keys: Seq<SupportKeyInfo>) -> Seq<Seq<char>> {
    Seq::new(keys.len(), |i: int| keys[i].name@)
}

/// Where `names` holds `name` nowhere from `from` up to `i`, the first
/// match from `from` on is the first match from `i` on.
pub proof fn lemma_first_match_skip(names: Seq<Seq<char>>, name: Seq<char>, from: int, i: int)
    requires
        0 <= from <= i <= names.len(),
        forall|j: int| from <= j < i ==> names[j] != name,
    ensures
        first_match(names, name, from) == first_match(names, name, i),
    decreases i - from,
{
    if from < i {
        lemma_first_match_skip(names, name, from + 1, i);
    }
}

/// Returns the first entry of `support` under the name `name`.
pub fn find_support(support: &Vec<(String, SupportInfo)>, name: &String) -> (r: Option<usize>)
    ensures
        r matches Some(j) ==> j < support@.len() && first_match(support_names(support@), name@, 0) == Some(
            j as int,
        ),
        r.is_none() ==> first_match(support_names(support@), name@, 0).is_none(),
{
    let mut j: usize = 0;
    while j < support.len()
        invariant
            j <= support@.len(),
            forall|i: int| 0 <= i < j ==> support_names(support@)[i] != name@,
        decreases support@.len() - j,
    {
        if support[j].0 == *name {
            proof {
                lemma_first_match_skip(support_names(support@), name@, 0, j as int);
            }
            return Some(j);
        }
        j += 1;
    }
    proof {
        lemma_first_match_skip(support_names(support@), name@, 0, j as int);
    }
    None
}

/// Returns the first chip under the technical name `name`.
pub fn find_chip(chips: &Vec<(String, ChipInfo)>, name: &String) -> (r: Option<usize>)
    ensures
        r matches Some(j) ==> j < chips@.len() && first_match(chip_names(chips@), name@, 0) == Some(
            j as int,
        ),
        r.is_none() ==> first_match(chip_names(chips@), name@, 0).is_none(),
{
    let mut j: usize = 0;
    while j < chips.len()
        invariant
            j <= chips@.len(),
            forall|i: int| 0 <= i < j ==> chip_names(chips@)[i] != name@,
        decreases chips@.len() - j,
    {
        if chips[j].0 == *name {
            proof {
                lemma_first_match_skip(chip_names(chips@), name@, 0, j as int);
            }
            return Some(j);
        }
        j += 1;
    }
    proof {
        lemma_first_match_skip(chip_names(chips@), name@, 0, j as int);
    }
    None
}

/// Returns the first support key of the name `status`.
pub fn find_support_key(keys: &Vec<SupportKeyInfo>, status: &str) -> (r: Option<usize>)
    ensures
        r matches Some(j) ==> j < keys@.len() && first_match(key_names(keys@), status@, 0) == Some(
            j as int,
        ),
        r.is_none() ==> first_match(key_names(keys@), status@, 0).is_none(),
{
    let wanted = status.to_owned();
    let mut j: usize = 0;
    while j < keys.len()
        invariant
            j <= keys@.len(),
            wanted@ == status@,
            forall|i: int| 0 <= i < j ==> key_names(keys@)[i] != status@,
        decreases keys@.len() - j,
    {
        if keys[j].name == wanted {
            proof {
                lemma_first_match_skip(key_names(keys@), status@, 0, j as int);
            }
            return Some(j);
        }
        j += 1;
    }
    proof {
        lemma_first_match_skip(key_names(keys@), status@, 0, j as int);
    }
    None
}

/// How one functionality is supported on one board, as the table shows it.
pub struct FunctionalitySupport {
    pub icon: String,
    pub description: String,
}

/// One row of the table: a board with the support of every functionality.
pub struct BoardSupport {
    pub chip: String,
    pub chip_technical_name: String,
    pub url: String,
    pub technical_name: String,
    pub name: String,
    pub tier: String,
    pub functionalities: Vec<FunctionalitySupport>,
}

/// A row of the table as plain values. A cell is the index of its support
/// key.
pub struct RowView {
    pub chip: Seq<char>,
    pub chip_technical_name: Seq<char>,
    pub url: Seq<char>,
    pub technical_name: Seq<char>,
    pub name: Seq<char>,
    pub tier: Seq<char>,
    pub cells: Seq<(Seq<char>, Seq<char>)>,
}

/// An error as plain values.
pub enum ErrorView {
    InvalidChipName { found: Seq<char>, board: Seq<char> },
    InvalidFunctionalityNameBoard { found: Seq<char>, board: Seq<char> },
    InvalidFunctionalityNameChip { found: Seq<char>, chip: Seq<char> },
    InvalidSupportKeyNameBoard { found: Seq<char>, functionality: Seq<char>, board: Seq<char> },
    InvalidSupportKeyNameChip { found: Seq<char>, functionality: Seq<char>, chip: Seq<char> },
    MissingSupportInfo { board: Seq<char>, chip: Seq<char>, functionality: Seq<char> },
}

impl View for Error {
    type V = ErrorView;

    open spec fn view(&self) -> ErrorView {
        match self {
            Error::InvalidChipName { found, board } => ErrorView::InvalidChipName {
                found: found@,
                board: board@,
            },
            Error::InvalidFunctionalityNameBoard {
                found,
                board,
            } => ErrorView::InvalidFunctionalityNameBoard { found: found@, board: board@ },
            Error::InvalidFunctionalityNameChip {
                found,
                chip,
            } => ErrorView::InvalidFunctionalityNameChip { found: found@, chip: chip@ },
            Error::InvalidSupportKeyNameBoard {
                found,
                functionality,
                board,
            } => ErrorView::InvalidSupportKeyNameBoard {
                found: found@,
                functionality: functionality@,
                board: board@,
            },
            Error::InvalidSupportKeyNameChip {
                found,
                functionality,
                chip,
            } => ErrorView::InvalidSupportKeyNameChip {
                found: found@,
                functionality: functionality@,
                chip: chip@,
            },
            Error::MissingSupportInfo {
                board,
                chip,
                functionality,
            } => ErrorView::MissingSupportInfo {
                board: board@,
                chip: chip@,
                functionality: functionality@,
            },
        }
    }
}

impl View for FunctionalitySupport {
    type V = (Seq<char>, Seq<char>);

    open spec fn view(&self) -> (Seq<char>, Seq<char>) {
        (self.icon@, self.description@)
    }
}

impl View for BoardSupport {
    type V = RowView;

    open spec fn view(&self) -> RowView {
        RowView {
            chip: self.chip@,
            chip_technical_name: self.chip_technical_name@,
            url: self.url@,
            technical_name: self.technical_name@,
            name: self.name@,
            tier: self.tier@,
            cells: Seq::new(self.functionalities@.len(), |i: int| self.functionalities@[i]@),
        }
    }
}

/// The support key named `status`, as a cell, or the error `e` if there is
/// none.
pub open spec fn key_cell(m: &Matrix, status: Seq<char>, e: ErrorView) -> Result<
    (Seq<char>, Seq<char>),
    ErrorView,
> {
    match first_match(key_names(m.support_keys@), status, 0) {
        Some(k) => Ok((m.support_keys@[k].icon@, m.support_keys@[k].description@)),
        None => Err(e),
    }
}

/// The cell of board `b` for functionality `f`: what the board says of the
/// functionality, or else what its chip says.
pub open spec fn cell_result(m: &Matrix, b: int, f: int) -> Result<
    (Seq<char>, Seq<char>),
    ErrorView,
> {
    let board = m.boards@[b].1;
    let fname = m.functionalities@[f].name@;
    match first_match(support_names(board.support@), fname, 0) {
        Some(j) => {
            let status = board.support@[j].1.spec_status();
            key_cell(
                m,
                status,
                ErrorView::InvalidSupportKeyNameBoard {
                    found: status,
                    functionality: fname,
                    board: board.name@,
                },
            )
        },
        None => match first_match(chip_names(m.chips@), board.chip@, 0) {
            None => Err(ErrorView::InvalidChipName { found: board.chip@, board: board.name@ }),
            Some(c) => {
                let chip = m.chips@[c].1;
                match first_match(support_names(chip.support@), fname, 0) {
                    None => Err(
                        ErrorView::MissingSupportInfo {
                            board: board.name@,
                            chip: board.chip@,
                            functionality: m.functionalities@[f].title@,
                        },
                    ),
                    Some(j) => {
                        let status = chip.support@[j].1.spec_status();
                        key_cell(
                            m,
                            status,
                            ErrorView::InvalidSupportKeyNameChip {
                                found: status,
                                functionality: fname,
                                chip: chip.name@,
                            },
                        )
                    },
                }
            },
        },
    }
}

/// The cells of board `b` for the first `n` functionalities, or the error
/// of the first functionality that has one.
pub open spec fn cells_result(m: &Matrix, b: int, n: int) -> Result<
    Seq<(Seq<char>, Seq<char>)>,
    ErrorView,
>
    decreases n,
{
    if n <= 0 {
        Ok(Seq::empty())
    } else {
        match cells_result(m, b, n - 1) {
            Err(e) => Err(e),
            Ok(cells) => match cell_result(m, b, n - 1) {
                Err(e) => Err(e),
                Ok(cell) => Ok(cells.push(cell)),
            },
        }
    }
}

/// The row of board `b`: its cells, then the name of its chip.
pub open spec fn row_result(m: &Matrix, b: int) -> Result<RowView, ErrorView> {
    let board = m.boards@[b].1;
    match cells_result(m, b, m.functionalities@.len() as int) {
        Err(e) => Err(e),
        Ok(cells) => match first_match(chip_names(m.chips@), board.chip@, 0) {
            None => Err(ErrorView::InvalidChipName { found: board.chip@, board: board.name@ }),
            Some(c) => Ok(
                RowView {
                    chip: m.chips@[c].1.name@,
                    chip_technical_name: board.chip@,
                    url: board.url@,
                    technical_name: m.boards@[b].0@,
                    name: board.name@,
                    tier: board.tier@,
                    cells,
                },
            ),
        },
    }
}

/// The rows of the first `n` boards, in their order, or the error of the
/// first board that has one.
pub open spec fn rows_result(m: &Matrix, n: int) -> Result<Seq<RowView>, ErrorView>
    decreases n,
{
    if n <= 0 {
        Ok(Seq::empty())
    } else {
        match rows_result(m, n - 1) {
            Err(e) => Err(e),
            Ok(rows) => match row_result(m, n - 1) {
                Err(e) => Err(e),
                Ok(row) => Ok(rows.push(row)),
            },
        }
    }
}

/// The rows of `rows` as plain values.
pub open spec fn row_views(rows: Seq<BoardSupport>) -> Seq<RowView> {
    Seq::new(rows.len(), |i: int| rows[i]@)
}

fn key_support(
    matrix: &Matrix,
    status: &str,
    e: Error,
) -> (r: Result<FunctionalitySupport, Error>)
    ensures
        match key_cell(matrix, status@, e@) {
            Ok(cell) => r matches Ok(c) && c@ == cell,
            Err(ev) => r matches Err(x) && x@ == ev,
        },
{
    match find_support_key(&matrix.support_keys, status) {
        Some(k) => Ok(
            FunctionalitySupport {
                icon: matrix.support_keys[k].icon.clone(),
                description: matrix.support_keys[k].description.clone(),
            },
        ),
        None => Err(e),
    }
}

/// Returns how functionality `f` is supported on board `b`: by what the
/// board says of it, or else by what its chip says.
pub fn functionality_support(matrix: &Matrix, b: usize, f: usize) -> (r: Result<
    FunctionalitySupport,
    Error,
>)
    requires
        matrix.wf(),
        b < matrix.boards@.len(),
        f < matrix.functionalities@.len(),
    ensures
        match cell_result(matrix, b as int, f as int) {
            Ok(cell) => r matches Ok(c) && c@ == cell,
            Err(ev) => r matches Err(x) && x@ == ev,
        },
{
    let board_info = &matrix.boards[b].1;
    let functionality_info = &matrix.functionalities[f];
    let name = &functionality_info.name;
    match find_support(&board_info.support, name) {
        Some(j) => {
            let status = board_info.support[j].1.status();
            let e = Error::InvalidSupportKeyNameBoard {
                found: status.to_owned(),
                functionality: name.clone(),
                board: board_info.name.clone(),
            };
            key_support(matrix, status, e)
        },
        None => {
            let c = match find_chip(&matrix.chips, &board_info.chip) {
                Some(c) => c,
                None => {
                    return Err(
                        Error::InvalidChipName {
                            found: board_info.chip.clone(),
                            board: board_info.name.clone(),
                        },
                    );
                },
            };
            let chip_info = &matrix.chips[c].1;
            match find_support(&chip_info.support, name) {
                None => Err(
                    Error::MissingSupportInfo {
                        board: board_info.name.clone(),
                        chip: board_info.chip.clone(),
                        functionality: functionality_info.title.clone(),
                    },
                ),
                Some(j) => {
                    let status = chip_info.support[j].1.status();
                    let e = Error::InvalidSupportKeyNameChip {
                        found: status.to_owned(),
                        functionality: name.clone(),
                        chip: chip_info.name.clone(),
                    };
                    key_support(matrix, status, e)
                },
            }
        },
    }
}

/// Returns the row of board `b`.
pub fn board_row(matrix: &Matrix, b: usize) -> (r: Result<BoardSupport, Error>)
    requires
        matrix.wf(),
        b < matrix.boards@.len(),
    ensures
        match row_result(matrix, b as int) {
            Ok(row) => r matches Ok(x) && x@ == row,
            Err(ev) => r matches Err(x) && x@ == ev,
        },
{
    let board_info = &matrix.boards[b].1;
    let mut functionalities: Vec<FunctionalitySupport> = Vec::new();
    let mut f: usize = 0;
    while f < matrix.functionalities.len()
        invariant
            matrix.wf(),
            f <= matrix.functionalities@.len(),
            b < matrix.boards@.len(),
            cells_result(matrix, b as int, f as int) matches Ok(cells) && cells == Seq::new(
                functionalities@.len(),
                |i: int| functionalities@[i]@,
            ),
        decreases matrix.functionalities@.len() - f,
    {
        let ghost before = Seq::new(functionalities@.len(), |i: int| functionalities@[i]@);
        match functionality_support(matrix, b, f) {
            Ok(cell) => {
                let ghost cv = cell@;
                functionalities.push(cell);
                proof {
                    assert(Seq::new(functionalities@.len(), |i: int| functionalities@[i]@)
                        =~= before.push(cv));
                }
            },
            Err(e) => {
                proof {
                    lemma_cells_error(matrix, b as int, f as int + 1, matrix.functionalities@.len() as int);
                }
                return Err(e);
            },
        }
        f += 1;
    }
    let c = match find_chip(&matrix.chips, &board_info.chip) {
        Some(c) => c,
        None => {
            return Err(
                Error::InvalidChipName {
                    found: board_info.chip.clone(),
                    board: board_info.name.clone(),
                },
            );
        },
    };
    let row = BoardSupport {
        chip: matrix.chips[c].1.name.clone(),
        chip_technical_name: board_info.chip.clone(),
        url: board_info.url.clone(),
        technical_name: matrix.boards[b].0.clone(),
        name: board_info.name.clone(),
        tier: board_info.tier.clone(),
        functionalities,
    };
    Ok(row)
}

/// An error among the first `n` cells is the error of any longer run of
/// cells.
pub proof fn lemma_cells_error(m: &Matrix, b: int, n: int, k: int)
    requires
        0 <= n <= k,
        cells_result(m, b, n).is_err(),
    ensures
        cells_result(m, b, k) == cells_result(m, b, n),
    decreases k - n,
{
    if n < k {
        lemma_cells_error(m, b, n, k - 1);
    }
}

/// An error among the first `n` rows is the error of any longer run of
/// rows.
pub proof fn lemma_rows_error(m: &Matrix, n: int, k: int)
    requires
        0 <= n <= k,
        rows_result(m, n).is_err(),
    ensures
        rows_result(m, k) == rows_result(m, n),
    decreases k - n,
{
    if n < k {
        lemma_rows_error(m, n, k - 1);
    }
}

/// Returns the rows of all boards, in the order of the boards, or the
/// first error.
pub fn all_rows(matrix: &Matrix) -> (r: Result<Vec<BoardSupport>, Error>)
    requires
        matrix.wf(),
    ensures
        match rows_result(matrix, matrix.boards@.len() as int) {
            Ok(rows) => r matches Ok(x) && row_views(x@) == rows,
            Err(ev) => r matches Err(x) && x@ == ev,
        },
{
    let mut rows: Vec<BoardSupport> = Vec::new();
    let mut b: usize = 0;
    while b < matrix.boards.len()
        invariant
            matrix.wf(),
            b <= matrix.boards@.len(),
            rows_result(matrix, b as int) matches Ok(v) && v == row_views(rows@),
        decreases matrix.boards@.len() - b,
    {
        let ghost before = row_views(rows@);
        match board_row(matrix, b) {
            Ok(row) => {
                let ghost rv = row@;
                rows.push(row);
                proof {
                    assert(row_views(rows@) =~= before.push(rv));
                }
            },
            Err(e) => {
                proof {
                    lemma_rows_error(matrix, b as int + 1, matrix.boards@.len() as int);
                }
                return Err(e);
            },
        }
        b += 1;
    }
    Ok(rows)
}

/// `s` with every letter turned into its lower case, as `str::to_lowercase`
/// does it.
pub uninterp spec fn lowercase_of(s: Seq<char>) -> Seq<char>;

/// `str::to_lowercase`. The contract gives the result its name and claims
/// nothing else of it.
#[verifier::external_body]
fn to_lowercase(s: &String) -> (lower: String)
    ensures
        lower@ == lowercase_of(s@),
{
    s.to_lowercase()
}

/// Whether `a` comes before `b` or equals it in the order of the
/// dictionary, letters compared by their code points.
pub open spec fn lex_le(a: Seq<char>, b: Seq<char>) -> bool
    decreases a.len(),
{
    if a.len() == 0 {
        true
    } else if b.len() == 0 {
        false
    } else if a[0] != b[0] {
        (a[0] as u32) < (b[0] as u32)
    } else {
        lex_le(a.drop_first(), b.drop_first())
    }
}

/// The comparison `<=` of `String`: strings are ordered lexicographically
/// by their bytes, which orders them by the code points of their letters.
#[verifier::external_body]
fn string_le(a: &String, b: &String) -> (le: bool)
    ensures
        le == lex_le(a@, b@),
{
    a <= b
}

/// Letters that differ have code points that differ.
pub proof fn lemma_code_points_differ(a: char, b: char)
    requires
        a != b,
    ensures
        a as u32 != b as u32,
{
    assert(a as u32 as char == a);
    assert(b as u32 as char == b);
}

/// Of two strings one comes before the other or equals it.
pub proof fn lemma_lex_le_total(a: Seq<char>, b: Seq<char>)
    ensures
        lex_le(a, b) || lex_le(b, a),
    decreases a.len(),
{
    if a.len() > 0 && b.len() > 0 {
        if a[0] == b[0] {
            lemma_lex_le_total(a.drop_first(), b.drop_first());
        } else {
            lemma_code_points_differ(a[0], b[0]);
        }
    }
}

/// The order of the dictionary is transitive.
pub proof fn lemma_lex_le_trans(a: Seq<char>, b: Seq<char>, c: Seq<char>)
    requires
        lex_le(a, b),
        lex_le(b, c),
    ensures
        lex_le(a, c),
    decreases a.len(),
{
    if a.len() > 0 && b.len() > 0 && c.len() > 0 {
        if a[0] == b[0] && b[0] == c[0] {
            lemma_lex_le_trans(a.drop_first(), b.drop_first(), c.drop_first());
        }
    }
}

/// The rows of `all` whose tier is `tier`, in their order.
pub open spec fn tier_rows(all: Seq<RowView>, tier: Seq<char>) -> Seq<RowView>
    decreases all.len(),
{
    if all.len() == 0 {
        Seq::empty()
    } else if all.last().tier == tier {
        tier_rows(all.drop_last(), tier).push(all.last())
    } else {
        tier_rows(all.drop_last(), tier)
    }
}

/// Whether `rows` are in the order of their names in lower case.
pub open spec fn sorted_by_name(rows: Seq<RowView>) -> bool {
    forall|i: int, j: int|
        0 <= i <= j < rows.len() ==> lex_le(
            lowercase_of(#[trigger] rows[i].name),
            lowercase_of(#[trigger] rows[j].name),
        )
}

/// An empty sequence holds nothing.
pub proof fn lemma_empty_multiset<A>()
    ensures
        Seq::<A>::empty().to_multiset() =~= Multiset::<A>::empty(),
{
    Seq::<A>::empty().to_multiset_ensures();
    vstd::multiset::lemma_multiset_empty_len(Seq::<A>::empty().to_multiset());
}

/// Inserting an element anywhere adds it once to what a sequence holds.
pub proof fn lemma_insert_multiset<A>(s: Seq<A>, p: int, a: A)
    requires
        0 <= p <= s.len(),
    ensures
        s.insert(p, a).to_multiset() =~= s.to_multiset().insert(a),
{
    let t = s.insert(p, a);
    assert(t[p] == a);
    assert(t.remove(p) =~= s);
    to_multiset_remove(t, p);
    assert(t.to_multiset().count(a) > 0) by {
        t.to_multiset_ensures();
        assert(t.contains(a));
    }
    assert(s.to_multiset().insert(a) =~= t.to_multiset());
}

/// Returns the rows of the boards of tier `board_support_tier`, in the
/// order of their names in lower case.
///
/// Every board is looked at first, in the order of the boards, whatever its
/// tier: the first that names a chip or a support key that the matrix does
/// not hold, or for which a functionality is supported nowhere, makes the
/// call fail. Rows of equal names come in no particular order.
pub fn board_rows(matrix: &Matrix, board_support_tier: &SupportTier) -> (r: Result<
    Vec<BoardSupport>,
    Error,
>)
    requires
        matrix.wf(),
    ensures
        match rows_result(matrix, matrix.boards@.len() as int) {
            Ok(all) => r matches Ok(rows) && sorted_by_name(row_views(rows@)) && row_views(
                rows@,
            ).to_multiset() == tier_rows(all, board_support_tier.spec_name()).to_multiset(),
            Err(ev) => r matches Err(x) && x@ == ev,
        },
{
    let mut input = match all_rows(matrix) {
        Ok(rows) => rows,
        Err(e) => {
            return Err(e);
        },
    };
    let tier = board_support_tier.to_string();
    let ghost all = row_views(input@);
    let mut out: Vec<BoardSupport> = Vec::new();
    let mut keys: Vec<String> = Vec::new();
    proof {
        lemma_empty_multiset::<RowView>();
        assert(row_views(out@) =~= Seq::<RowView>::empty());
        assert(Multiset::<RowView>::empty().add(tier_rows(all, tier@).to_multiset())
            =~= tier_rows(all, tier@).to_multiset());
    }
    while input.len() > 0
        invariant
            tier@ == board_support_tier.spec_name(),
            keys@.len() == out@.len(),
            forall|i: int| 0 <= i < out@.len() ==> (#[trigger] keys@[i])@ == lowercase_of(
                out@[i].name@,
            ),
            sorted_by_name(row_views(out@)),
            row_views(out@).to_multiset().add(tier_rows(row_views(input@), tier@).to_multiset())
                == tier_rows(all, tier@).to_multiset(),
        decreases input@.len(),
    {
        let ghost before_in = row_views(input@);
        let ghost before_out = row_views(out@);
        let row = input.pop().unwrap();
        proof {
            assert(row_views(input@) =~= before_in.drop_last());
            assert(before_in.last() == row@);
        }
        if row.tier == tier {
            let key = to_lowercase(&row.name);
            let mut p: usize = 0;
            while p < keys.len() && string_le(&keys[p], &key)
                invariant
                    p <= keys@.len(),
                    forall|i: int| 0 <= i < p ==> lex_le((#[trigger] keys@[i])@, key@),
                decreases keys@.len() - p,
            {
                p += 1;
            }
            let ghost rv = row@;
            let ghost old_keys = keys@;
            out.insert(p, row);
            keys.insert(p, key);
            proof {
                assert(row_views(out@) =~= before_out.insert(p as int, rv));
                lemma_insert_multiset(before_out, p as int, rv);
                to_multiset_build(tier_rows(row_views(input@), tier@), rv);
                assert(row_views(out@).to_multiset().add(
                    tier_rows(row_views(input@), tier@).to_multiset(),
                ) =~= before_out.to_multiset().add(tier_rows(before_in, tier@).to_multiset()));
                assert forall|i: int| 0 <= i < out@.len() implies (#[trigger] keys@[i])@
                    == lowercase_of(out@[i].name@) by {
                    if i < p {
                        assert(keys@[i] == old_keys[i]);
                    } else if i > p {
                        assert(keys@[i] == old_keys[i - 1]);
                    }
                }
                let now = row_views(out@);
                assert forall|i: int, j: int| 0 <= i <= j < now.len() implies lex_le(
                    lowercase_of(#[trigger] now[i].name),
                    lowercase_of(#[trigger] now[j].name),
                ) by {
                    let k = lowercase_of(rv.name);
                    if i == j {
                        lemma_lex_le_total(lowercase_of(now[i].name), lowercase_of(now[i].name));
                    } else if j < p {
                        assert(now[i] == before_out[i] && now[j] == before_out[j]);
                    } else if j == p {
                        assert(now[i] == before_out[i]);
                        assert(old_keys[i]@ == lowercase_of(before_out[i].name));
                    } else if i < p {
                        assert(now[i] == before_out[i] && now[j] == before_out[j - 1]);
                    } else {
                        // p <= i < j: the rows from p on come after the new one
                        assert(now[j] == before_out[j - 1]);
                        assert(old_keys[p as int]@ == lowercase_of(before_out[p as int].name));
                        lemma_lex_le_total(old_keys[p as int]@, k);
                        assert(lex_le(k, lowercase_of(before_out[p as int].name)));
                        if i == p {
                            assert(lex_le(
                                lowercase_of(before_out[p as int].name),
                                lowercase_of(before_out[j - 1].name),
                            ));
                            lemma_lex_le_trans(
                                k,
                                lowercase_of(before_out[p as int].name),
                                lowercase_of(before_out[j - 1].name),
                            );
                        } else {
                            assert(now[i] == before_out[i - 1]);
                        }
                    }
                }
            }
        } else {
            proof {
                assert(tier_rows(before_in, tier@) == tier_rows(row_views(input@), tier@));
            }
        }
    }
    proof {
        lemma_empty_multiset::<RowView>();
        assert(tier_rows(row_views(input@), tier@) =~= Seq::<RowView>::empty());
        assert(row_views(out@).to_multiset().add(Multiset::<RowView>::empty())
            =~= row_views(out@).to_multiset());
    }
    Ok(out)
}

} // verus!
