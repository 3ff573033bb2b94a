//! The pictures: every row of every train, the tenders, the cars, the
//! passengers and the puffs of smoke, with the geometry of each train. Each
//! table is written once as a sequence for the contracts, and once as an
//! array for the code, which is proved to hold the same rows.

use vstd::prelude::*;

verus! {

/// The D51 is this many rows tall, plus a blank row below.
pub const D51_HIGHT: i32 = 10;
/// The column of the D51's funnel, counted from its front.
pub const D51_FUNNEL: i32 = 7;
/// How many columns the D51 with its tender reaches behind its front.
pub const D51_LENGTH: i32 = 83;
/// The number of wheel positions of the D51.
pub const D51_PATTERNS: i32 = 6;
pub const D51_STR_1: &'static str = "      ====        ________                ___________ ";
pub const D51_STR_2: &'static str = "  _D _|  |_______/        \\__I_I_____===__|_________| ";
pub const D51_STR_3: &'static str = "   |(_)---  |   H\\________/ |   |        =|___ ___|   ";
pub const D51_STR_4: &'static str = "   /     |  |   H  |  |     |   |         ||_| |_||   ";
pub const D51_STR_5: &'static str = "  |      |  |   H  |__--------------------| [___] |   ";
pub const D51_STR_6: &'static str = "  | ________|___H__/__|_____/[][]~\\_______|       |   ";
pub const D51_STR_7: &'static str = "  |/ |   |-----------I_____I [][] []  D   |=======|__ ";
pub const D51_WHL_11: &'static str = "__/ =| o |=-~~\\  /~~\\  /~~\\  /~~\\ ____Y___________|__ ";
pub const D51_WHL_12: &'static str = " |/-=|___|=    ||    ||    ||    |_____/~\\___/        ";
pub const D51_WHL_13: &'static str = "  \\_/      \\O=====O=====O=====O_/      \\_/            ";
pub const D51_WHL_21: &'static str = "__/ =| o |=-~~\\  /~~\\  /~~\\  /~~\\ ____Y___________|__ ";
pub const D51_WHL_22: &'static str = " |/-=|___|=O=====O=====O=====O   |_____/~\\___/        ";
pub const D51_WHL_23: &'static str = "  \\_/      \\__/  \\__/  \\__/  \\__/      \\_/            ";
pub const D51_WHL_31: &'static str = "__/ =| o |=-O=====O=====O=====O \\ ____Y___________|__ ";
pub const D51_WHL_32: &'static str = " |/-=|___|=    ||    ||    ||    |_____/~\\___/        ";
pub const D51_WHL_33: &'static str = "  \\_/      \\__/  \\__/  \\__/  \\__/      \\_/            ";
pub const D51_WHL_41: &'static str = "__/ =| o |=-~O=====O=====O=====O\\ ____Y___________|__ ";
pub const D51_WHL_42: &'static str = " |/-=|___|=    ||    ||    ||    |_____/~\\___/        ";
pub const D51_WHL_43: &'static str = "  \\_/      \\__/  \\__/  \\__/  \\__/      \\_/            ";
pub const D51_WHL_51: &'static str = "__/ =| o |=-~~\\  /~~\\  /~~\\  /~~\\ ____Y___________|__ ";
pub const D51_WHL_52: &'static str = " |/-=|___|=   O=====O=====O=====O|_____/~\\___/        ";
pub const D51_WHL_53: &'static str = "  \\_/      \\__/  \\__/  \\__/  \\__/      \\_/            ";
pub const D51_WHL_61: &'static str = "__/ =| o |=-~~\\  /~~\\  /~~\\  /~~\\ ____Y___________|__ ";
pub const D51_WHL_62: &'static str = " |/-=|___|=    ||    ||    ||    |_____/~\\___/        ";
pub const D51_WHL_63: &'static str = "  \\_/      \\_O=====O=====O=====O/      \\_/            ";
pub const D51_DEL: &'static str = "                                                      ";
pub const COAL_01: &'static str = "                              ";
pub const COAL_02: &'static str = "                              ";
pub const COAL_03: &'static str = "    _________________         ";
pub const COAL_04: &'static str = "   _|                \\_____A  ";
pub const COAL_05: &'static str = " =|                        |  ";
pub const COAL_06: &'static str = " -|                        |  ";
pub const COAL_07: &'static str = "__|________________________|_ ";
pub const COAL_08: &'static str = "|__________________________|_ ";
pub const COAL_09: &'static str = "   |_D__D__D_|  |_D__D__D_|   ";
pub const COAL_10: &'static str = "    \\_/   \\_/    \\_/   \\_/    ";
pub const COAL_DEL: &'static str = "                              ";
/// The small engine is this many rows tall, plus a blank row below.
pub const LOGO_HIGHT: i32 = 6;
/// The column of the small engine's funnel, counted from its front.
pub const LOGO_FUNNEL: i32 = 4;
/// How many columns the small train reaches behind its front.
pub const LOGO_LENGTH: i32 = 84;
/// The number of wheel positions of the small engine.
pub const LOGO_PATTERNS: i32 = 6;
pub const LOGO_1: &'static str = "     ++      +------ ";
pub const LOGO_2: &'static str = "     ||      |+-+ |  ";
pub const LOGO_3: &'static str = "   /---------|| | |  ";
pub const LOGO_4: &'static str = "  + ========  +-+ |  ";
pub const LWHL_11: &'static str = " _|--O========O~\\-+  ";
pub const LWHL_12: &'static str = "//// \\_/      \\_/    ";
pub const LWHL_21: &'static str = " _|--/O========O\\-+  ";
pub const LWHL_22: &'static str = "//// \\_/      \\_/    ";
pub const LWHL_31: &'static str = " _|--/~O========O-+  ";
pub const LWHL_32: &'static str = "//// \\_/      \\_/    ";
pub const LWHL_41: &'static str = " _|--/~\\------/~\\-+  ";
pub const LWHL_42: &'static str = "//// \\_O========O    ";
pub const LWHL_51: &'static str = " _|--/~\\------/~\\-+  ";
pub const LWHL_52: &'static str = "//// \\O========O/    ";
pub const LWHL_61: &'static str = " _|--/~\\------/~\\-+  ";
pub const LWHL_62: &'static str = "//// O========O_/    ";
pub const LCOAL_1: &'static str = "____                 ";
pub const LCOAL_2: &'static str = "|   \\@@@@@@@@@@@     ";
pub const LCOAL_3: &'static str = "|    \\@@@@@@@@@@@@@_ ";
pub const LCOAL_4: &'static str = "|                  | ";
pub const LCOAL_5: &'static str = "|__________________| ";
pub const LCOAL_6: &'static str = "   (O)       (O)     ";
pub const LCAR_1: &'static str = "____________________ ";
pub const LCAR_2: &'static str = "|  ___ ___ ___ ___ | ";
pub const LCAR_3: &'static str = "|  |_| |_| |_| |_| | ";
pub const LCAR_4: &'static str = "|__________________| ";
pub const LCAR_5: &'static str = "|__________________| ";
pub const LCAR_6: &'static str = "   (O)        (O)    ";
pub const DEL_LN: &'static str = "                     ";
/// The C51 is this many rows tall, plus a blank row below.
pub const C51_HIGHT: i32 = 11;
/// The column of the C51's funnel, counted from its front.
pub const C51_FUNNEL: i32 = 7;
/// How many columns the C51 with its tender reaches behind its front.
pub const C51_LENGTH: i32 = 87;
/// The number of wheel positions of the C51.
pub const C51_PATTERNS: i32 = 6;
pub const C51_DEL: &'static str = "                                                       ";
pub const C51_STR_1: &'static str = "        ___                                            ";
pub const C51_STR_2: &'static str = "       _|_|_  _     __       __             ___________";
pub const C51_STR_3: &'static str = "    D__/   \\_(_)___|  |__H__|  |_____I_Ii_()|_________|";
pub const C51_STR_4: &'static str = "     | `---'   |:: `--'  H  `--'         |  |___ ___|  ";
pub const C51_STR_5: &'static str = "    +|~~~~~~~~++::~~~~~~~H~~+=====+~~~~~~|~~||_| |_||  ";
pub const C51_STR_6: &'static str = "    ||        | ::       H  +=====+      |  |::  ...|  ";
pub const C51_STR_7: &'static str = "|    | _______|_::-----------------[][]-----|       |  ";
pub const C51_WH_61: &'static str = "| /~~ ||   |-----/~~~~\\  /[I_____I][][] --|||_______|__";
pub const C51_WH_62: &'static str = "------'|oOo|==[]=-     ||      ||      |  ||=======_|__";
pub const C51_WH_63: &'static str = "/~\\____|___|/~\\_|   O=======O=======O  |__|+-/~\\_|     ";
pub const C51_WH_64: &'static str = "\\_/         \\_/  \\____/  \\____/  \\____/      \\_/       ";
pub const C51_WH_51: &'static str = "| /~~ ||   |-----/~~~~\\  /[I_____I][][] --|||_______|__";
pub const C51_WH_52: &'static str = "------'|oOo|===[]=-    ||      ||      |  ||=======_|__";
pub const C51_WH_53: &'static str = "/~\\____|___|/~\\_|    O=======O=======O |__|+-/~\\_|     ";
pub const C51_WH_54: &'static str = "\\_/         \\_/  \\____/  \\____/  \\____/      \\_/       ";
pub const C51_WH_41: &'static str = "| /~~ ||   |-----/~~~~\\  /[I_____I][][] --|||_______|__";
pub const C51_WH_42: &'static str = "------'|oOo|===[]=- O=======O=======O  |  ||=======_|__";
pub const C51_WH_43: &'static str = "/~\\____|___|/~\\_|      ||      ||      |__|+-/~\\_|     ";
pub const C51_WH_44: &'static str = "\\_/         \\_/  \\____/  \\____/  \\____/      \\_/       ";
pub const C51_WH_31: &'static str = "| /~~ ||   |-----/~~~~\\  /[I_____I][][] --|||_______|__";
pub const C51_WH_32: &'static str = "------'|oOo|==[]=- O=======O=======O   |  ||=======_|__";
pub const C51_WH_33: &'static str = "/~\\____|___|/~\\_|      ||      ||      |__|+-/~\\_|     ";
pub const C51_WH_34: &'static str = "\\_/         \\_/  \\____/  \\____/  \\____/      \\_/       ";
pub const C51_WH_21: &'static str = "| /~~ ||   |-----/~~~~\\  /[I_____I][][] --|||_______|__";
pub const C51_WH_22: &'static str = "------'|oOo|=[]=- O=======O=======O    |  ||=======_|__";
pub const C51_WH_23: &'static str = "/~\\____|___|/~\\_|      ||      ||      |__|+-/~\\_|     ";
pub const C51_WH_24: &'static str = "\\_/         \\_/  \\____/  \\____/  \\____/      \\_/       ";
pub const C51_WH_11: &'static str = "| /~~ ||   |-----/~~~~\\  /[I_____I][][] --|||_______|__";
pub const C51_WH_12: &'static str = "------'|oOo|=[]=-      ||      ||      |  ||=======_|__";
pub const C51_WH_13: &'static str = "/~\\____|___|/~\\_|  O=======O=======O   |__|+-/~\\_|     ";
pub const C51_WH_14: &'static str = "\\_/         \\_/  \\____/  \\____/  \\____/      \\_/       ";

/// Row `i` of the D51 in wheel position `p`: seven rows of body, three of
/// wheels, and a blank row that wipes what the frame before left below.
pub open spec fn d51_row_spec(p: int, i: int) -> &'static str {
    seq![
        seq![
            D51_STR_1, D51_STR_2, D51_STR_3, D51_STR_4, D51_STR_5, D51_STR_6, D51_STR_7,
            D51_WHL_11, D51_WHL_12, D51_WHL_13, D51_DEL,
        ],
        seq![
            D51_STR_1, D51_STR_2, D51_STR_3, D51_STR_4, D51_STR_5, D51_STR_6, D51_STR_7,
            D51_WHL_21, D51_WHL_22, D51_WHL_23, D51_DEL,
        ],
        seq![
            D51_STR_1, D51_STR_2, D51_STR_3, D51_STR_4, D51_STR_5, D51_STR_6, D51_STR_7,
            D51_WHL_31, D51_WHL_32, D51_WHL_33, D51_DEL,
        ],
        seq![
            D51_STR_1, D51_STR_2, D51_STR_3, D51_STR_4, D51_STR_5, D51_STR_6, D51_STR_7,
            D51_WHL_41, D51_WHL_42, D51_WHL_43, D51_DEL,
        ],
        seq![
            D51_STR_1, D51_STR_2, D51_STR_3, D51_STR_4, D51_STR_5, D51_STR_6, D51_STR_7,
            D51_WHL_51, D51_WHL_52, D51_WHL_53, D51_DEL,
        ],
        seq![
            D51_STR_1, D51_STR_2, D51_STR_3, D51_STR_4, D51_STR_5, D51_STR_6, D51_STR_7,
            D51_WHL_61, D51_WHL_62, D51_WHL_63, D51_DEL,
        ],
    ][p][i]
}

/// Row `i` of the D51 in wheel position `p`.
pub fn d51_row(p: usize, i: usize) -> (row: &'static str)
    requires
        p < 6,
        i < 11,
    ensures
        row == d51_row_spec(p as int, i as int),
{
    let table: [[&'static str; 11]; 6] = [
        [
            D51_STR_1, D51_STR_2, D51_STR_3, D51_STR_4, D51_STR_5, D51_STR_6, D51_STR_7,
            D51_WHL_11, D51_WHL_12, D51_WHL_13, D51_DEL,
        ],
        [
            D51_STR_1, D51_STR_2, D51_STR_3, D51_STR_4, D51_STR_5, D51_STR_6, D51_STR_7,
            D51_WHL_21, D51_WHL_22, D51_WHL_23, D51_DEL,
        ],
        [
            D51_STR_1, D51_STR_2, D51_STR_3, D51_STR_4, D51_STR_5, D51_STR_6, D51_STR_7,
            D51_WHL_31, D51_WHL_32, D51_WHL_33, D51_DEL,
        ],
        [
            D51_STR_1, D51_STR_2, D51_STR_3, D51_STR_4, D51_STR_5, D51_STR_6, D51_STR_7,
            D51_WHL_41, D51_WHL_42, D51_WHL_43, D51_DEL,
        ],
        [
            D51_STR_1, D51_STR_2, D51_STR_3, D51_STR_4, D51_STR_5, D51_STR_6, D51_STR_7,
            D51_WHL_51, D51_WHL_52, D51_WHL_53, D51_DEL,
        ],
        [
            D51_STR_1, D51_STR_2, D51_STR_3, D51_STR_4, D51_STR_5, D51_STR_6, D51_STR_7,
            D51_WHL_61, D51_WHL_62, D51_WHL_63, D51_DEL,
        ],
    ];
    proof {
        assert(table@[0]@ =~= seq![
            D51_STR_1, D51_STR_2, D51_STR_3, D51_STR_4, D51_STR_5, D51_STR_6, D51_STR_7,
            D51_WHL_11, D51_WHL_12, D51_WHL_13, D51_DEL,
        ]);
        assert(table@[1]@ =~= seq![
            D51_STR_1, D51_STR_2, D51_STR_3, D51_STR_4, D51_STR_5, D51_STR_6, D51_STR_7,
            D51_WHL_21, D51_WHL_22, D51_WHL_23, D51_DEL,
        ]);
        assert(table@[2]@ =~= seq![
            D51_STR_1, D51_STR_2, D51_STR_3, D51_STR_4, D51_STR_5, D51_STR_6, D51_STR_7,
            D51_WHL_31, D51_WHL_32, D51_WHL_33, D51_DEL,
        ]);
        assert(table@[3]@ =~= seq![
            D51_STR_1, D51_STR_2, D51_STR_3, D51_STR_4, D51_STR_5, D51_STR_6, D51_STR_7,
            D51_WHL_41, D51_WHL_42, D51_WHL_43, D51_DEL,
        ]);
        assert(table@[4]@ =~= seq![
            D51_STR_1, D51_STR_2, D51_STR_3, D51_STR_4, D51_STR_5, D51_STR_6, D51_STR_7,
            D51_WHL_51, D51_WHL_52, D51_WHL_53, D51_DEL,
        ]);
        assert(table@[5]@ =~= seq![
            D51_STR_1, D51_STR_2, D51_STR_3, D51_STR_4, D51_STR_5, D51_STR_6, D51_STR_7,
            D51_WHL_61, D51_WHL_62, D51_WHL_63, D51_DEL,
        ]);
    }
    table[p][i]
}

/// Row `i` of the tender behind the D51.
pub open spec fn d51_coal_spec(i: int) -> &'static str {
    seq![
        COAL_01, COAL_02, COAL_03, COAL_04, COAL_05, COAL_06, COAL_07, COAL_08, COAL_09,
        COAL_10, COAL_DEL,
    ][i]
}

/// Row `i` of the tender behind the D51.
pub fn d51_coal(i: usize) -> (row: &'static str)
    requires
        i < 11,
    ensures
        row == d51_coal_spec(i as int),
{
    let table: [&'static str; 11] = [
        COAL_01, COAL_02, COAL_03, COAL_04, COAL_05, COAL_06, COAL_07, COAL_08, COAL_09,
        COAL_10, COAL_DEL,
    ];
    proof {
        assert(table@ =~= seq![
            COAL_01, COAL_02, COAL_03, COAL_04, COAL_05, COAL_06, COAL_07, COAL_08, COAL_09,
            COAL_10, COAL_DEL,
        ]);
    }
    table[i]
}

/// Row `i` of the C51 in wheel position `p`: seven rows of body, four of
/// wheels, and a blank row.
pub open spec fn c51_row_spec(p: int, i: int) -> &'static str {
    seq![
        seq![
            C51_STR_1, C51_STR_2, C51_STR_3, C51_STR_4, C51_STR_5, C51_STR_6, C51_STR_7,
            C51_WH_11, C51_WH_12, C51_WH_13, C51_WH_14, C51_DEL,
        ],
        seq![
            C51_STR_1, C51_STR_2, C51_STR_3, C51_STR_4, C51_STR_5, C51_STR_6, C51_STR_7,
            C51_WH_21, C51_WH_22, C51_WH_23, C51_WH_24, C51_DEL,
        ],
        seq![
            C51_STR_1, C51_STR_2, C51_STR_3, C51_STR_4, C51_STR_5, C51_STR_6, C51_STR_7,
            C51_WH_31, C51_WH_32, C51_WH_33, C51_WH_34, C51_DEL,
        ],
        seq![
            C51_STR_1, C51_STR_2, C51_STR_3, C51_STR_4, C51_STR_5, C51_STR_6, C51_STR_7,
            C51_WH_41, C51_WH_42, C51_WH_43, C51_WH_44, C51_DEL,
        ],
        seq![
            C51_STR_1, C51_STR_2, C51_STR_3, C51_STR_4, C51_STR_5, C51_STR_6, C51_STR_7,
            C51_WH_51, C51_WH_52, C51_WH_53, C51_WH_54, C51_DEL,
        ],
        seq![
            C51_STR_1, C51_STR_2, C51_STR_3, C51_STR_4, C51_STR_5, C51_STR_6, C51_STR_7,
            C51_WH_61, C51_WH_62, C51_WH_63, C51_WH_64, C51_DEL,
        ],
    ][p][i]
}

/// Row `i` of the C51 in wheel position `p`.
pub fn c51_row(p: usize, i: usize) -> (row: &'static str)
    requires
        p < 6,
        i < 12,
    ensures
        row == c51_row_spec(p as int, i as int),
{
    let table: [[&'static str; 12]; 6] = [
        [
            C51_STR_1, C51_STR_2, C51_STR_3, C51_STR_4, C51_STR_5, C51_STR_6, C51_STR_7,
            C51_WH_11, C51_WH_12, C51_WH_13, C51_WH_14, C51_DEL,
        ],
        [
            C51_STR_1, C51_STR_2, C51_STR_3, C51_STR_4, C51_STR_5, C51_STR_6, C51_STR_7,
            C51_WH_21, C51_WH_22, C51_WH_23, C51_WH_24, C51_DEL,
        ],
        [
            C51_STR_1, C51_STR_2, C51_STR_3, C51_STR_4, C51_STR_5, C51_STR_6, C51_STR_7,
            C51_WH_31, C51_WH_32, C51_WH_33, C51_WH_34, C51_DEL,
        ],
        [
            C51_STR_1, C51_STR_2, C51_STR_3, C51_STR_4, C51_STR_5, C51_STR_6, C51_STR_7,
            C51_WH_41, C51_WH_42, C51_WH_43, C51_WH_44, C51_DEL,
        ],
        [
            C51_STR_1, C51_STR_2, C51_STR_3, C51_STR_4, C51_STR_5, C51_STR_6, C51_STR_7,
            C51_WH_51, C51_WH_52, C51_WH_53, C51_WH_54, C51_DEL,
        ],
        [
            C51_STR_1, C51_STR_2, C51_STR_3, C51_STR_4, C51_STR_5, C51_STR_6, C51_STR_7,
            C51_WH_61, C51_WH_62, C51_WH_63, C51_WH_64, C51_DEL,
        ],
    ];
    proof {
        assert(table@[0]@ =~= seq![
            C51_STR_1, C51_STR_2, C51_STR_3, C51_STR_4, C51_STR_5, C51_STR_6, C51_STR_7,
            C51_WH_11, C51_WH_12, C51_WH_13, C51_WH_14, C51_DEL,
        ]);
        assert(table@[1]@ =~= seq![
            C51_STR_1, C51_STR_2, C51_STR_3, C51_STR_4, C51_STR_5, C51_STR_6, C51_STR_7,
            C51_WH_21, C51_WH_22, C51_WH_23, C51_WH_24, C51_DEL,
        ]);
        assert(table@[2]@ =~= seq![
            C51_STR_1, C51_STR_2, C51_STR_3, C51_STR_4, C51_STR_5, C51_STR_6, C51_STR_7,
            C51_WH_31, C51_WH_32, C51_WH_33, C51_WH_34, C51_DEL,
        ]);
        assert(table@[3]@ =~= seq![
            C51_STR_1, C51_STR_2, C51_STR_3, C51_STR_4, C51_STR_5, C51_STR_6, C51_STR_7,
            C51_WH_41, C51_WH_42, C51_WH_43, C51_WH_44, C51_DEL,
        ]);
        assert(table@[4]@ =~= seq![
            C51_STR_1, C51_STR_2, C51_STR_3, C51_STR_4, C51_STR_5, C51_STR_6, C51_STR_7,
            C51_WH_51, C51_WH_52, C51_WH_53, C51_WH_54, C51_DEL,
        ]);
        assert(table@[5]@ =~= seq![
            C51_STR_1, C51_STR_2, C51_STR_3, C51_STR_4, C51_STR_5, C51_STR_6, C51_STR_7,
            C51_WH_61, C51_WH_62, C51_WH_63, C51_WH_64, C51_DEL,
        ]);
    }
    table[p][i]
}

/// Row `i` of the tender behind the C51: a blank row above it and one below.
pub open spec fn c51_coal_spec(i: int) -> &'static str {
    seq![
        COAL_DEL, COAL_01, COAL_02, COAL_03, COAL_04, COAL_05, COAL_06, COAL_07, COAL_08,
        COAL_09, COAL_10, COAL_DEL,
    ][i]
}

/// Row `i` of the tender behind the C51.
pub fn c51_coal(i: usize) -> (row: &'static str)
    requires
        i < 12,
    ensures
        row == c51_coal_spec(i as int),
{
    let table: [&'static str; 12] = [
        COAL_DEL, COAL_01, COAL_02, COAL_03, COAL_04, COAL_05, COAL_06, COAL_07, COAL_08,
        COAL_09, COAL_10, COAL_DEL,
    ];
    proof {
        assert(table@ =~= seq![
            COAL_DEL, COAL_01, COAL_02, COAL_03, COAL_04, COAL_05, COAL_06, COAL_07,
            COAL_08, COAL_09, COAL_10, COAL_DEL,
        ]);
    }
    table[i]
}

/// Row `i` of the small engine in wheel position `p`: four rows of body, two
/// of wheels, and a blank row.
pub open spec fn sl_row_spec(p: int, i: int) -> &'static str {
    seq![
        seq![
            LOGO_1, LOGO_2, LOGO_3, LOGO_4, LWHL_11, LWHL_12, DEL_LN,
        ],
        seq![
            LOGO_1, LOGO_2, LOGO_3, LOGO_4, LWHL_21, LWHL_22, DEL_LN,
        ],
        seq![
            LOGO_1, LOGO_2, LOGO_3, LOGO_4, LWHL_31, LWHL_32, DEL_LN,
        ],
        seq![
            LOGO_1, LOGO_2, LOGO_3, LOGO_4, LWHL_41, LWHL_42, DEL_LN,
        ],
        seq![
            LOGO_1, LOGO_2, LOGO_3, LOGO_4, LWHL_51, LWHL_52, DEL_LN,
        ],
        seq![
            LOGO_1, LOGO_2, LOGO_3, LOGO_4, LWHL_61, LWHL_62, DEL_LN,
        ],
    ][p][i]
}

/// Row `i` of the small engine in wheel position `p`.
pub fn sl_row(p: usize, i: usize) -> (row: &'static str)
    requires
        p < 6,
        i < 7,
    ensures
        row == sl_row_spec(p as int, i as int),
{
    let table: [[&'static str; 7]; 6] = [
        [
            LOGO_1, LOGO_2, LOGO_3, LOGO_4, LWHL_11, LWHL_12, DEL_LN,
        ],
        [
            LOGO_1, LOGO_2, LOGO_3, LOGO_4, LWHL_21, LWHL_22, DEL_LN,
        ],
        [
            LOGO_1, LOGO_2, LOGO_3, LOGO_4, LWHL_31, LWHL_32, DEL_LN,
        ],
        [
            LOGO_1, LOGO_2, LOGO_3, LOGO_4, LWHL_41, LWHL_42, DEL_LN,
        ],
        [
            LOGO_1, LOGO_2, LOGO_3, LOGO_4, LWHL_51, LWHL_52, DEL_LN,
        ],
        [
            LOGO_1, LOGO_2, LOGO_3, LOGO_4, LWHL_61, LWHL_62, DEL_LN,
        ],
    ];
    proof {
        assert(table@[0]@ =~= seq![
            LOGO_1, LOGO_2, LOGO_3, LOGO_4, LWHL_11, LWHL_12, DEL_LN,
        ]);
        assert(table@[1]@ =~= seq![
            LOGO_1, LOGO_2, LOGO_3, LOGO_4, LWHL_21, LWHL_22, DEL_LN,
        ]);
        assert(table@[2]@ =~= seq![
            LOGO_1, LOGO_2, LOGO_3, LOGO_4, LWHL_31, LWHL_32, DEL_LN,
        ]);
        assert(table@[3]@ =~= seq![
            LOGO_1, LOGO_2, LOGO_3, LOGO_4, LWHL_41, LWHL_42, DEL_LN,
        ]);
        assert(table@[4]@ =~= seq![
            LOGO_1, LOGO_2, LOGO_3, LOGO_4, LWHL_51, LWHL_52, DEL_LN,
        ]);
        assert(table@[5]@ =~= seq![
            LOGO_1, LOGO_2, LOGO_3, LOGO_4, LWHL_61, LWHL_62, DEL_LN,
        ]);
    }
    table[p][i]
}

/// Row `i` of the coal car behind the small engine.
pub open spec fn sl_coal_spec(i: int) -> &'static str {
    seq![
        LCOAL_1, LCOAL_2, LCOAL_3, LCOAL_4, LCOAL_5, LCOAL_6, DEL_LN,
    ][i]
}

/// Row `i` of the coal car behind the small engine.
pub fn sl_coal(i: usize) -> (row: &'static str)
    requires
        i < 7,
    ensures
        row == sl_coal_spec(i as int),
{
    let table: [&'static str; 7] = [
        LCOAL_1, LCOAL_2, LCOAL_3, LCOAL_4, LCOAL_5, LCOAL_6, DEL_LN,
    ];
    proof {
        assert(table@ =~= seq![
            LCOAL_1, LCOAL_2, LCOAL_3, LCOAL_4, LCOAL_5, LCOAL_6, DEL_LN,
        ]);
    }
    table[i]
}

/// Row `i` of a passenger car of the small train.
pub open spec fn sl_car_spec(i: int) -> &'static str {
    seq![
        LCAR_1, LCAR_2, LCAR_3, LCAR_4, LCAR_5, LCAR_6, DEL_LN,
    ][i]
}

/// Row `i` of a passenger car of the small train.
pub fn sl_car(i: usize) -> (row: &'static str)
    requires
        i < 7,
    ensures
        row == sl_car_spec(i as int),
{
    let table: [&'static str; 7] = [
        LCAR_1, LCAR_2, LCAR_3, LCAR_4, LCAR_5, LCAR_6, DEL_LN,
    ];
    proof {
        assert(table@ =~= seq![
            LCAR_1, LCAR_2, LCAR_3, LCAR_4, LCAR_5, LCAR_6, DEL_LN,
        ]);
    }
    table[i]
}

/// Row `i` of a passenger in pose `f`: resting (0) or waving for help (1).
pub open spec fn man_spec(f: int, i: int) -> &'static str {
    seq![
        seq![
            "", "(O)",
        ],
        seq![
            "Help!", "\\O/",
        ],
    ][f][i]
}

/// Row `i` of a passenger in pose `f`.
pub fn man(f: usize, i: usize) -> (row: &'static str)
    requires
        f < 2,
        i < 2,
    ensures
        row == man_spec(f as int, i as int),
{
    let table: [[&'static str; 2]; 2] = [
        [
            "", "(O)",
        ],
        [
            "Help!", "\\O/",
        ],
    ];
    proof {
        assert(table@[0]@ =~= seq![
            "", "(O)",
        ]);
        assert(table@[1]@ =~= seq![
            "Help!", "\\O/",
        ]);
    }
    table[f][i]
}

/// A puff of smoke of kind `kind` at stage `p` of its life: it shrinks as it
/// ages and vanishes into a blank at the last stage.
pub open spec fn smoke_shape_spec(kind: int, p: int) -> &'static str {
    seq![
        seq![
            "(   )", "(    )", "(    )", "(   )", "(  )", "(  )", "( )", "( )", "()", "()",
            "O", "O", "O", "O", "O", " ",
        ],
        seq![
            "(@@@)", "(@@@@)", "(@@@@)", "(@@@)", "(@@)", "(@@)", "(@)", "(@)", "@@", "@@",
            "@", "@", "@", "@", "@", " ",
        ],
    ][kind][p]
}

/// A puff of smoke of kind `kind` at stage `p` of its life.
pub fn smoke_shape(kind: usize, p: usize) -> (row: &'static str)
    requires
        kind < 2,
        p < 16,
    ensures
        row == smoke_shape_spec(kind as int, p as int),
{
    let table: [[&'static str; 16]; 2] = [
        [
            "(   )", "(    )", "(    )", "(   )", "(  )", "(  )", "( )", "( )", "()", "()",
            "O", "O", "O", "O", "O", " ",
        ],
        [
            "(@@@)", "(@@@@)", "(@@@@)", "(@@@)", "(@@)", "(@@)", "(@)", "(@)", "@@", "@@",
            "@", "@", "@", "@", "@", " ",
        ],
    ];
    proof {
        assert(table@[0]@ =~= seq![
            "(   )", "(    )", "(    )", "(   )", "(  )", "(  )", "( )", "( )", "()", "()",
            "O", "O", "O", "O", "O", " ",
        ]);
        assert(table@[1]@ =~= seq![
            "(@@@)", "(@@@@)", "(@@@@)", "(@@@)", "(@@)", "(@@)", "(@)", "(@)", "@@", "@@",
            "@", "@", "@", "@", "@", " ",
        ]);
    }
    table[kind][p]
}

/// The blanks that wipe a puff at stage `p` of its life.
pub open spec fn smoke_eraser_spec(p: int) -> &'static str {
    seq![
        "     ", "      ", "      ", "     ", "    ", "    ", "   ", "   ", "  ", "  ", " ",
        " ", " ", " ", " ", " ",
    ][p]
}

/// The blanks that wipe a puff at stage `p` of its life.
pub fn smoke_eraser(p: usize) -> (row: &'static str)
    requires
        p < 16,
    ensures
        row == smoke_eraser_spec(p as int),
{
    let table: [&'static str; 16] = [
        "     ", "      ", "      ", "     ", "    ", "    ", "   ", "   ", "  ", "  ", " ",
        " ", " ", " ", " ", " ",
    ];
    proof {
        assert(table@ =~= seq![
            "     ", "      ", "      ", "     ", "    ", "    ", "   ", "   ", "  ", "  ",
            " ", " ", " ", " ", " ", " ",
        ]);
    }
    table[p]
}

/// Every row of a picture is as wide as the others, so a row drawn over the
/// one of the frame before covers it: the engines are 54 (D51), 55 (C51) and
/// 21 (the small engine) columns wide, the tenders 30, the small engine's coal
/// car and passenger cars 21. Every row of a tender, of the coal car and of a
/// passenger car ends in a blank, which wipes the column the train leaves
/// behind as it moves left.
pub proof fn lemma_picture_widths()
    ensures
        forall|p: int, i: int| 0 <= p < 6 && 0 <= i < 11 ==> (#[trigger] d51_row_spec(p, i))@.len() == 54,
        forall|p: int, i: int| 0 <= p < 6 && 0 <= i < 12 ==> (#[trigger] c51_row_spec(p, i))@.len() == 55,
        forall|p: int, i: int| 0 <= p < 6 && 0 <= i < 7 ==> (#[trigger] sl_row_spec(p, i))@.len() == 21,
        forall|i: int| 0 <= i < 11 ==> (#[trigger] d51_coal_spec(i))@.len() == 30 && d51_coal_spec(i)@[29] == ' ',
        forall|i: int| 0 <= i < 12 ==> (#[trigger] c51_coal_spec(i))@.len() == 30 && c51_coal_spec(i)@[29] == ' ',
        forall|i: int| 0 <= i < 7 ==> (#[trigger] sl_coal_spec(i))@.len() == 21 && sl_coal_spec(i)@[20] == ' ',
        forall|i: int| 0 <= i < 7 ==> (#[trigger] sl_car_spec(i))@.len() == 21 && sl_car_spec(i)@[20] == ' ',
{
    reveal_strlit("      ====        ________                ___________ ");
    reveal_strlit("  _D _|  |_______/        \\__I_I_____===__|_________| ");
    reveal_strlit("   |(_)---  |   H\\________/ |   |        =|___ ___|   ");
    reveal_strlit("   /     |  |   H  |  |     |   |         ||_| |_||   ");
    reveal_strlit("  |      |  |   H  |__--------------------| [___] |   ");
    reveal_strlit("  | ________|___H__/__|_____/[][]~\\_______|       |   ");
    reveal_strlit("  |/ |   |-----------I_____I [][] []  D   |=======|__ ");
    reveal_strlit("__/ =| o |=-~~\\  /~~\\  /~~\\  /~~\\ ____Y___________|__ ");
    reveal_strlit(" |/-=|___|=    ||    ||    ||    |_____/~\\___/        ");
    reveal_strlit("  \\_/      \\O=====O=====O=====O_/      \\_/            ");
    reveal_strlit(" |/-=|___|=O=====O=====O=====O   |_____/~\\___/        ");
    reveal_strlit("  \\_/      \\__/  \\__/  \\__/  \\__/      \\_/            ");
    reveal_strlit("__/ =| o |=-O=====O=====O=====O \\ ____Y___________|__ ");
    reveal_strlit("__/ =| o |=-~O=====O=====O=====O\\ ____Y___________|__ ");
    reveal_strlit(" |/-=|___|=   O=====O=====O=====O|_____/~\\___/        ");
    reveal_strlit("  \\_/      \\_O=====O=====O=====O/      \\_/            ");
    reveal_strlit("                                                      ");
    reveal_strlit("                              ");
    reveal_strlit("    _________________         ");
    reveal_strlit("   _|                \\_____A  ");
    reveal_strlit(" =|                        |  ");
    reveal_strlit(" -|                        |  ");
    reveal_strlit("__|________________________|_ ");
    reveal_strlit("|__________________________|_ ");
    reveal_strlit("   |_D__D__D_|  |_D__D__D_|   ");
    reveal_strlit("    \\_/   \\_/    \\_/   \\_/    ");
    reveal_strlit("     ++      +------ ");
    reveal_strlit("     ||      |+-+ |  ");
    reveal_strlit("   /---------|| | |  ");
    reveal_strlit("  + ========  +-+ |  ");
    reveal_strlit(" _|--O========O~\\-+  ");
    reveal_strlit("//// \\_/      \\_/    ");
    reveal_strlit(" _|--/O========O\\-+  ");
    reveal_strlit(" _|--/~O========O-+  ");
    reveal_strlit(" _|--/~\\------/~\\-+  ");
    reveal_strlit("//// \\_O========O    ");
    reveal_strlit("//// \\O========O/    ");
    reveal_strlit("//// O========O_/    ");
    reveal_strlit("____                 ");
    reveal_strlit("|   \\@@@@@@@@@@@     ");
    reveal_strlit("|    \\@@@@@@@@@@@@@_ ");
    reveal_strlit("|                  | ");
    reveal_strlit("|__________________| ");
    reveal_strlit("   (O)       (O)     ");
    reveal_strlit("____________________ ");
    reveal_strlit("|  ___ ___ ___ ___ | ");
    reveal_strlit("|  |_| |_| |_| |_| | ");
    reveal_strlit("   (O)        (O)    ");
    reveal_strlit("                     ");
    reveal_strlit("                                                       ");
    reveal_strlit("        ___                                            ");
    reveal_strlit("       _|_|_  _     __       __             ___________");
    reveal_strlit("    D__/   \\_(_)___|  |__H__|  |_____I_Ii_()|_________|");
    reveal_strlit("     | `---'   |:: `--'  H  `--'         |  |___ ___|  ");
    reveal_strlit("    +|~~~~~~~~++::~~~~~~~H~~+=====+~~~~~~|~~||_| |_||  ");
    reveal_strlit("    ||        | ::       H  +=====+      |  |::  ...|  ");
    reveal_strlit("|    | _______|_::-----------------[][]-----|       |  ");
    reveal_strlit("| /~~ ||   |-----/~~~~\\  /[I_____I][][] --|||_______|__");
    reveal_strlit("------'|oOo|==[]=-     ||      ||      |  ||=======_|__");
    reveal_strlit("/~\\____|___|/~\\_|   O=======O=======O  |__|+-/~\\_|     ");
    reveal_strlit("\\_/         \\_/  \\____/  \\____/  \\____/      \\_/       ");
    reveal_strlit("------'|oOo|===[]=-    ||      ||      |  ||=======_|__");
    reveal_strlit("/~\\____|___|/~\\_|    O=======O=======O |__|+-/~\\_|     ");
    reveal_strlit("------'|oOo|===[]=- O=======O=======O  |  ||=======_|__");
    reveal_strlit("/~\\____|___|/~\\_|      ||      ||      |__|+-/~\\_|     ");
    reveal_strlit("------'|oOo|==[]=- O=======O=======O   |  ||=======_|__");
    reveal_strlit("------'|oOo|=[]=- O=======O=======O    |  ||=======_|__");
    reveal_strlit("------'|oOo|=[]=-      ||      ||      |  ||=======_|__");
    reveal_strlit("/~\\____|___|/~\\_|  O=======O=======O   |__|+-/~\\_|     ");
    assert forall|p: int, i: int| 0 <= p < 6 && 0 <= i < 11 implies (#[trigger] d51_row_spec(p, i))@.len() == 54 by {}
    assert forall|p: int, i: int| 0 <= p < 6 && 0 <= i < 12 implies (#[trigger] c51_row_spec(p, i))@.len() == 55 by {}
    assert forall|p: int, i: int| 0 <= p < 6 && 0 <= i < 7 implies (#[trigger] sl_row_spec(p, i))@.len() == 21 by {}
}

/// The blanks that wipe a puff are exactly as wide as the puff, at every
/// stage and for both kinds, so a puff is wiped without a trace and nothing
/// next to it is touched.
pub proof fn lemma_eraser_fits_puff()
    ensures
        forall|kind: int, p: int|
            0 <= kind < 2 && 0 <= p < 16 ==> (#[trigger] smoke_shape_spec(kind, p))@.len()
                == smoke_eraser_spec(p)@.len(),
        forall|p: int, j: int|
            0 <= p < 16 && 0 <= j < smoke_eraser_spec(p)@.len() ==> (#[trigger] smoke_eraser_spec(p)@[j]) == ' ',
{
    reveal_strlit("(   )");
    reveal_strlit("(    )");
    reveal_strlit("(  )");
    reveal_strlit("( )");
    reveal_strlit("()");
    reveal_strlit("O");
    reveal_strlit(" ");
    reveal_strlit("(@@@)");
    reveal_strlit("(@@@@)");
    reveal_strlit("(@@)");
    reveal_strlit("(@)");
    reveal_strlit("@@");
    reveal_strlit("@");
    reveal_strlit("     ");
    reveal_strlit("      ");
    reveal_strlit("    ");
    reveal_strlit("   ");
    reveal_strlit("  ");
}



} // verus!
