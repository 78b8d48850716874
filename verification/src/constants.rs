use vstd::prelude::*;

use crate::command::AttributeMap;
use crate::gamestate::character::Class;
use crate::gamestate::dungeons::LightDungeon;

verus! {

/// An enemy of a dungeon, with its level, class, attributes, health and the
/// experience that beating it gives.
#[derive(Debug, Clone, Copy, PartialEq, Eq)]
pub struct Monster {
    pub level: u16,
    pub class: Class,
    pub attributes: AttributeMap,
    pub hp: u32,
    pub xp: u32,
}

impl Monster {
    /// A monster of the given values.
    pub fn new(level: u16, class: Class, attribs: [u32; 5], hp: u32, xp: u32) -> (r: Monster)
        ensures
            r == (Monster { level, class, attributes: attribs, hp, xp }),
    {
        Monster { level, class, attributes: attribs, hp, xp }
    }
}

/// The enemies of a light dungeon, in the order in which they are fought.
pub open spec fn spec_light_enemies(d: LightDungeon) -> Seq<Monster> {
    match d {
        LightDungeon::DesecratedCatacombs => seq![
            Monster { level: 10, class: Class::Mage, attributes: [48, 52, 104, 77, 47], hp: 1694, xp: 1287 },
            Monster { level: 12, class: Class::Warrior, attributes: [120, 68, 59, 101, 51], hp: 6565, xp: 1785 },
            Monster { level: 14, class: Class::Warrior, attributes: [149, 78, 69, 124, 65], hp: 9300, xp: 2395 },
            Monster { level: 16, class: Class::Scout, attributes: [84, 195, 83, 131, 94], hp: 8908, xp: 3146 },
            Monster { level: 18, class: Class::Warrior, attributes: [214, 135, 122, 260, 142], hp: 16055, xp: 4050 },
            Monster { level: 22, class: Class::Mage, attributes: [97, 99, 303, 198, 137], hp: 9108, xp: 6412 },
            Monster { level: 26, class: Class::Warrior, attributes: [359, 135, 122, 260, 142], hp: 35100, xp: 9631 },
            Monster { level: 30, class: Class::Mage, attributes: [126, 130, 460, 279, 193], hp: 17298, xp: 13952 },
            Monster { level: 40, class: Class::Warrior, attributes: [614, 207, 191, 445, 238], hp: 91225, xp: 30909 },
            Monster { level: 50, class: Class::Scout, attributes: [221, 847, 213, 561, 292], hp: 114444, xp: 60343 },
        ],
        LightDungeon::MinesOfGloria => seq![
            Monster { level: 20, class: Class::Scout, attributes: [101, 264, 101, 174, 119], hp: 14616, xp: 2124 },
            Monster { level: 24, class: Class::Warrior, attributes: [317, 126, 117, 238, 130], hp: 29750, xp: 7909 },
            Monster { level: 28, class: Class::Warrior, attributes: [393, 138, 125, 284, 152], hp: 41180, xp: 11652 },
            Monster { level: 34, class: Class::Scout, attributes: [143, 554, 144, 303, 216], hp: 42420, xp: 19539 },
            Monster { level: 38, class: Class::Warrior, attributes: [592, 178, 162, 398, 195], hp: 77610, xp: 26652 },
            Monster { level: 44, class: Class::Mage, attributes: [191, 190, 780, 411, 259], hp: 36990, xp: 40886 },
            Monster { level: 48, class: Class::Warrior, attributes: [744, 243, 230, 563, 246], hp: 137935, xp: 53228 },
            Monster { level: 56, class: Class::Scout, attributes: [250, 960, 240, 680, 345], hp: 155040, xp: 86309 },
            Monster { level: 66, class: Class::Scout, attributes: [300, 1160, 290, 880, 420], hp: 235840, xp: 148282 },
            Monster { level: 70, class: Class::Warrior, attributes: [1240, 385, 360, 960, 340], hp: 340800, xp: 181085 },
        ],
        LightDungeon::RuinsOfGnark => seq![
            Monster { level: 32, class: Class::Scout, attributes: [155, 486, 161, 276, 205], hp: 36432, xp: 16557 },
            Monster { level: 36, class: Class::Scout, attributes: [141, 602, 149, 344, 230], hp: 50912, xp: 22893 },
            Monster { level: 42, class: Class::Scout, attributes: [205, 726, 224, 403, 247], hp: 69316, xp: 35642 },
            Monster { level: 46, class: Class::Warrior, attributes: [768, 215, 183, 539, 249], hp: 126665, xp: 46757 },
            Monster { level: 54, class: Class::Warrior, attributes: [920, 265, 240, 640, 260], hp: 176000, xp: 76872 },
            Monster { level: 60, class: Class::Scout, attributes: [270, 1040, 260, 760, 375], hp: 185400, xp: 108013 },
            Monster { level: 64, class: Class::Warrior, attributes: [1120, 340, 315, 840, 310], hp: 273000, xp: 133734 },
            Monster { level: 76, class: Class::Scout, attributes: [350, 1360, 340, 1080, 495], hp: 332640, xp: 240784 },
            Monster { level: 86, class: Class::Warrior, attributes: [1560, 505, 480, 1280, 420], hp: 556800, xp: 374041 },
            Monster { level: 90, class: Class::Warrior, attributes: [1640, 535, 510, 1360, 440], hp: 618800, xp: 441608 },
        ],
        LightDungeon::CutthroatGrotto => seq![
            Monster { level: 52, class: Class::Scout, attributes: [230, 880, 220, 601, 315], hp: 127412, xp: 68234 },
            Monster { level: 58, class: Class::Scout, attributes: [260, 1000, 250, 720, 360], hp: 169920, xp: 96706 },
            Monster { level: 62, class: Class::Warrior, attributes: [1080, 325, 300, 800, 300], hp: 252000, xp: 120287 },
            Monster { level: 68, class: Class::Warrior, attributes: [1200, 370, 345, 920, 330], hp: 317400, xp: 163994 },
            Monster { level: 74, class: Class::Warrior, attributes: [1320, 415, 390, 1040, 360], hp: 390000, xp: 163994 },
            Monster { level: 82, class: Class::Scout, attributes: [380, 1480, 370, 1200, 540], hp: 398400, xp: 315135 },
            Monster { level: 84, class: Class::Warrior, attributes: [1520, 490, 465, 1240, 410], hp: 527000, xp: 343618 },
            Monster { level: 96, class: Class::Warrior, attributes: [1760, 580, 555, 1480, 470], hp: 717800, xp: 560797 },
            Monster { level: 102, class: Class::Scout, attributes: [480, 1880, 470, 1600, 690], hp: 659200, xp: 704509 },
            Monster { level: 110, class: Class::Scout, attributes: [520, 2040, 510, 1760, 750], hp: 781440, xp: 940791 },
        ],
        LightDungeon::EmeraldScaleAltar => seq![
            Monster { level: 72, class: Class::Scout, attributes: [330, 1280, 320, 1000, 465], hp: 292000, xp: 199497 },
            Monster { level: 78, class: Class::Scout, attributes: [360, 1400, 350, 1120, 510], hp: 353920, xp: 263817 },
            Monster { level: 80, class: Class::Scout, attributes: [370, 1440, 360, 1160, 525], hp: 375840, xp: 288496 },
            Monster { level: 88, class: Class::Scout, attributes: [410, 1600, 400, 1320, 585], hp: 469920, xp: 406744 },
            Monster { level: 94, class: Class::Warrior, attributes: [1720, 565, 540, 1440, 460], hp: 684000, xp: 518518 },
            Monster { level: 100, class: Class::Scout, attributes: [470, 1840, 460, 1560, 675], hp: 630240, xp: 653687 },
            Monster { level: 108, class: Class::Warrior, attributes: [2000, 670, 645, 1720, 530], hp: 937400, xp: 876584 },
            Monster { level: 114, class: Class::Mage, attributes: [520, 540, 2200, 1760, 775], hp: 404800, xp: 1081088 },
            Monster { level: 122, class: Class::Warrior, attributes: [2280, 775, 750, 2000, 600], hp: 1230000, xp: 1412064 },
            Monster { level: 130, class: Class::Scout, attributes: [620, 2440, 610, 2160, 900], hp: 1131840, xp: 1821461 },
        ],
        LightDungeon::ToxicTree => seq![
            Monster { level: 92, class: Class::Warrior, attributes: [1680, 550, 525, 1400, 450], hp: 651000, xp: 478738 },
            Monster { level: 98, class: Class::Scout, attributes: [460, 1800, 450, 1520, 660], hp: 601920, xp: 605700 },
            Monster { level: 104, class: Class::Mage, attributes: [470, 490, 2000, 1560, 700], hp: 327600, xp: 758451 },
            Monster { level: 106, class: Class::Scout, attributes: [500, 1960, 490, 1680, 720], hp: 719040, xp: 815853 },
            Monster { level: 118, class: Class::Scout, attributes: [560, 2200, 520, 1920, 810], hp: 913920, xp: 1237696 },
            Monster { level: 124, class: Class::Warrior, attributes: [2320, 790, 765, 2040, 610], hp: 1275000, xp: 1506706 },
            Monster { level: 128, class: Class::Scout, attributes: [610, 2400, 600, 2120, 885], hp: 1093920, xp: 1710914 },
            Monster { level: 136, class: Class::Mage, attributes: [630, 650, 2640, 2200, 940], hp: 602800, xp: 2187846 },
            Monster { level: 144, class: Class::Scout, attributes: [690, 2720, 680, 2440, 1005], hp: 1415200, xp: 2767832 },
            Monster { level: 150, class: Class::Scout, attributes: [720, 2840, 710, 2560, 1050], hp: 1546240, xp: 3280697 },
        ],
        LightDungeon::MagmaStream => seq![
            Monster { level: 112, class: Class::Scout, attributes: [530, 2080, 520, 1800, 765], hp: 813600, xp: 1009041 },
            Monster { level: 116, class: Class::Scout, attributes: [550, 2160, 540, 1880, 795], hp: 879840, xp: 1157092 },
            Monster { level: 120, class: Class::Mage, attributes: [550, 570, 2320, 1880, 820], hp: 454960, xp: 1322625 },
            Monster { level: 126, class: Class::Warrior, attributes: [2360, 805, 780, 2080, 620], hp: 1320800, xp: 1606255 },
            Monster { level: 134, class: Class::Warrior, attributes: [2520, 865, 840, 2240, 660], hp: 1512000, xp: 2059369 },
            Monster { level: 138, class: Class::Warrior, attributes: [2600, 895, 870, 2320, 680], hp: 1612400, xp: 2322552 },
            Monster { level: 142, class: Class::Mage, attributes: [660, 680, 2760, 2320, 985], hp: 663520, xp: 2612278 },
            Monster { level: 146, class: Class::Warrior, attributes: [2760, 955, 930, 2480, 720], hp: 1822800, xp: 2930646 },
            Monster { level: 148, class: Class::Warrior, attributes: [2800, 970, 945, 2520, 730], hp: 1877400, xp: 3101774 },
            Monster { level: 170, class: Class::Warrior, attributes: [3240, 1135, 1110, 2960, 840], hp: 2530800, xp: 5583708 },
        ],
        LightDungeon::FrostBloodTemple => seq![
            Monster { level: 132, class: Class::Warrior, attributes: [2480, 850, 825, 2200, 650], hp: 1463000, xp: 1937541 },
            Monster { level: 140, class: Class::Scout, attributes: [670, 2640, 660, 2360, 975], hp: 1331040, xp: 2463717 },
            Monster { level: 154, class: Class::Warrior, attributes: [2920, 1015, 990, 2640, 760], hp: 2046000, xp: 3663979 },
            Monster { level: 158, class: Class::Scout, attributes: [760, 3000, 750, 2720, 1110], hp: 1729920, xp: 4082943 },
            Monster { level: 164, class: Class::Scout, attributes: [790, 3120, 780, 2840, 1155], hp: 1874400, xp: 4785109 },
            Monster { level: 168, class: Class::Mage, attributes: [790, 810, 3280, 2840, 1180], hp: 959920, xp: 5306545 },
            Monster { level: 172, class: Class::Warrior, attributes: [3280, 1150, 1125, 3000, 850], hp: 2595000, xp: 5873522 },
            Monster { level: 180, class: Class::Scout, attributes: [870, 3440, 860, 3160, 1275], hp: 2287840, xp: 7157815 },
            Monster { level: 185, class: Class::Mage, attributes: [875, 895, 3620, 3180, 1305], hp: 1182960, xp: 8070081 },
            Monster { level: 200, class: Class::Mage, attributes: [950, 970, 3920, 3480, 1410], hp: 1398960, xp: 11412835 },
        ],
        LightDungeon::PyramidsofMadness => seq![
            Monster { level: 152, class: Class::Warrior, attributes: [2880, 1000, 975, 2600, 750], hp: 1989000, xp: 3467701 },
            Monster { level: 156, class: Class::Mage, attributes: [730, 750, 3040, 2600, 1090], hp: 816400, xp: 3868959 },
            Monster { level: 160, class: Class::Scout, attributes: [770, 3040, 760, 2760, 1125], hp: 1777440, xp: 4307201 },
            Monster { level: 162, class: Class::Warrior, attributes: [3080, 1075, 1050, 2800, 800], hp: 2282000, xp: 4541147 },
            Monster { level: 166, class: Class::Mage, attributes: [780, 800, 3240, 2800, 1165], hp: 935200, xp: 5040468 },
            Monster { level: 174, class: Class::Warrior, attributes: [3320, 1165, 1140, 3040, 860], hp: 2660000, xp: 6175189 },
            Monster { level: 176, class: Class::Scout, attributes: [850, 3360, 840, 3080, 1245], hp: 2180640, xp: 6489101 },
            Monster { level: 178, class: Class::Scout, attributes: [860, 3400, 850, 3120, 1260], hp: 2233920, xp: 6816906 },
            Monster { level: 190, class: Class::Mage, attributes: [900, 920, 3720, 3280, 1340], hp: 1252960, xp: 9081081 },
            Monster { level: 0, class: Class::Warrior, attributes: [0, 0, 0, 0, 0], hp: 0, xp: 0 },
        ],
        LightDungeon::BlackSkullFortress => seq![
            Monster { level: 205, class: Class::Scout, attributes: [995, 3940, 985, 3660, 1450], hp: 3015840, xp: 12751538 },
            Monster { level: 210, class: Class::Warrior, attributes: [4040, 1420, 1395, 3760, 1010], hp: 3966800, xp: 14222021 },
            Monster { level: 215, class: Class::Warrior, attributes: [4140, 1455, 1430, 3860, 1030], hp: 4168800, xp: 15824529 },
            Monster { level: 220, class: Class::Warrior, attributes: [4240, 1490, 1465, 3960, 1050], hp: 4375800, xp: 17581974 },
            Monster { level: 225, class: Class::Scout, attributes: [1095, 4340, 1085, 4060, 1590], hp: 3670240, xp: 19491852 },
            Monster { level: 230, class: Class::Scout, attributes: [1120, 4440, 1110, 4160, 1645], hp: 3843840, xp: 21576743 },
            Monster { level: 235, class: Class::Mage, attributes: [1125, 1145, 4620, 4180, 1655], hp: 1972960, xp: 23839326 },
            Monster { level: 240, class: Class::Warrior, attributes: [4640, 1630, 1605, 4360, 1130], hp: 5253800, xp: 26302843 },
            Monster { level: 245, class: Class::Warrior, attributes: [4740, 1665, 1640, 4460, 1150], hp: 5485800, xp: 28966329 },
            Monster { level: 250, class: Class::Warrior, attributes: [4840, 1700, 1675, 4560, 1170], hp: 5722800, xp: 31862139 },
        ],
        LightDungeon::CircusOfHorror => seq![
            Monster { level: 255, class: Class::Warrior, attributes: [4940, 1735, 1710, 4660, 1190], hp: 5964800, xp: 34985806 },
            Monster { level: 260, class: Class::Scout, attributes: [1270, 5040, 1260, 4760, 1835], hp: 4969440, xp: 38369989 },
            Monster { level: 265, class: Class::Warrior, attributes: [5140, 1805, 1780, 4860, 1230], hp: 6463800, xp: 42016588 },
            Monster { level: 270, class: Class::Warrior, attributes: [5240, 1840, 1815, 4960, 1250], hp: 6720800, xp: 45958126 },
            Monster { level: 275, class: Class::Mage, attributes: [1325, 1345, 5420, 4980, 1935], hp: 2748960, xp: 50191950 },
            Monster { level: 280, class: Class::Scout, attributes: [1370, 5440, 1360, 5160, 1975], hp: 5799840, xp: 54764113 },
            Monster { level: 285, class: Class::Warrior, attributes: [5540, 1945, 1920, 5260, 1310], hp: 7521800, xp: 59666036 },
            Monster { level: 290, class: Class::Scout, attributes: [1420, 5640, 1410, 5360, 2045], hp: 6239040, xp: 64942539 },
            Monster { level: 295, class: Class::Mage, attributes: [1425, 1445, 5820, 5380, 2075], hp: 3184960, xp: 70595045 },
            Monster { level: 300, class: Class::Warrior, attributes: [5840, 2050, 2025, 5560, 1370], hp: 8787200, xp: 76669139 },
        ],
        LightDungeon::Hell => seq![
            Monster { level: 305, class: Class::Mage, attributes: [1475, 1495, 6020, 5580, 2145], hp: 3414960, xp: 83158305 },
            Monster { level: 310, class: Class::Mage, attributes: [1500, 1520, 6120, 5680, 2180], hp: 3532960, xp: 90125436 },
            Monster { level: 315, class: Class::Warrior, attributes: [6140, 2155, 2130, 5860, 2255], hp: 9258800, xp: 97556858 },
            Monster { level: 320, class: Class::Scout, attributes: [1570, 6240, 1560, 5960, 2255], hp: 7652640, xp: 105514978 },
            Monster { level: 325, class: Class::Mage, attributes: [1575, 1595, 6420, 5980, 2285], hp: 3898960, xp: 113997992 },
            Monster { level: 330, class: Class::Warrior, attributes: [6440, 2260, 2235, 6160, 1490], hp: 10194800, xp: 123067419 },
            Monster { level: 335, class: Class::Scout, attributes: [1645, 6540, 1635, 6260, 2360], hp: 8413440, xp: 132712488 },
            Monster { level: 340, class: Class::Warrior, attributes: [6640, 2330, 2305, 6360, 1530], hp: 10843800, xp: 143018630 },
            Monster { level: 345, class: Class::Warrior, attributes: [6740, 2365, 2340, 6460, 1550], hp: 11175800, xp: 153964246 },
            Monster { level: 350, class: Class::Warrior, attributes: [6840, 2400, 2375, 6560, 1570], hp: 11512800, xp: 165631756 },
        ],
        LightDungeon::The13thFloor => seq![
            Monster { level: 355, class: Class::Warrior, attributes: [7570, 2655, 2630, 7290, 1716], hp: 12976200, xp: 178017293 },
            Monster { level: 360, class: Class::Mage, attributes: [1970, 1990, 8000, 7560, 2838], hp: 5458320, xp: 191202824 },
            Monster { level: 365, class: Class::Warrior, attributes: [8290, 2908, 2882, 8010, 1860], hp: 14658300, xp: 205171015 },
            Monster { level: 370, class: Class::Mage, attributes: [2160, 2180, 8760, 8320, 3104], hp: 6173440, xp: 220033230 },
            Monster { level: 375, class: Class::Warrior, attributes: [9340, 3275, 3250, 9060, 2070], hp: 17032800, xp: 235758967 },
            Monster { level: 380, class: Class::Scout, attributes: [2682, 10690, 2672, 10410, 3812], hp: 15864840, xp: 252458197 },
            Monster { level: 385, class: Class::Mage, attributes: [2888, 2908, 11670, 11230, 4122], hp: 8669560, xp: 270120546 },
            Monster { level: 390, class: Class::Warrior, attributes: [12540, 4395, 4370, 12260, 2710], hp: 23968300, xp: 288853442 },
            Monster { level: 395, class: Class::Warrior, attributes: [13540, 4725, 4720, 13260, 2910], hp: 26540800, xp: 308630400 },
            Monster { level: 400, class: Class::Warrior, attributes: [16840, 5900, 5875, 16540, 3570], hp: 33202800, xp: 329599075 },
            Monster { level: 410, class: Class::Scout, attributes: [7080, 20200, 7050, 18210, 4280], hp: 29937240, xp: 300000000 },
            Monster { level: 420, class: Class::Warrior, attributes: [24240, 8490, 8460, 20030, 5130], hp: 42163152, xp: 300000000 },
            Monster { level: 430, class: Class::Mage, attributes: [10150, 10180, 29080, 22030, 6150], hp: 18989860, xp: 300000000 },
            Monster { level: 440, class: Class::Warrior, attributes: [34890, 12210, 12180, 24230, 7380], hp: 53427152, xp: 300000000 },
            Monster { level: 450, class: Class::Mage, attributes: [14610, 14650, 41860, 26650, 8850], hp: 24038300, xp: 300000000 },
            Monster { level: 460, class: Class::Warrior, attributes: [50230, 17580, 17530, 29310, 10620], hp: 67559552, xp: 300000000 },
            Monster { level: 470, class: Class::Warrior, attributes: [60270, 21090, 21030, 32240, 12740], hp: 75925200, xp: 300000000 },
            Monster { level: 480, class: Class::Warrior, attributes: [72320, 25300, 25230, 35460, 15280], hp: 85281296, xp: 300000000 },
            Monster { level: 490, class: Class::Scout, attributes: [30360, 86780, 30270, 39000, 18330], hp: 76596000, xp: 300000000 },
            Monster { level: 500, class: Class::Warrior, attributes: [0, 0, 0, 0, 0], hp: 0, xp: 300000000 },
        ],
        LightDungeon::Easteros => seq![
            Monster { level: 310, class: Class::Warrior, attributes: [6040, 2120, 2095, 5760, 1410], hp: 8956800, xp: 90125436 },
            Monster { level: 320, class: Class::Warrior, attributes: [6240, 2190, 2165, 5960, 1450], hp: 9565800, xp: 105514978 },
            Monster { level: 330, class: Class::Mage, attributes: [3200, 3240, 13040, 12160, 4640], hp: 8049920, xp: 123067419 },
            Monster { level: 340, class: Class::Warrior, attributes: [13280, 4660, 4610, 12720, 3060], hp: 21687600, xp: 143018630 },
            Monster { level: 350, class: Class::Warrior, attributes: [13680, 4800, 4750, 13120, 3140], hp: 23025600, xp: 165631756 },
            Monster { level: 360, class: Class::Mage, attributes: [5910, 5970, 24000, 22680, 8514], hp: 16374960, xp: 191202824 },
            Monster { level: 370, class: Class::Scout, attributes: [6540, 26040, 6510, 25200, 9327], hp: 37396800, xp: 220033230 },
            Monster { level: 380, class: Class::Warrior, attributes: [32070, 11244, 11166, 31230, 7020], hp: 59493152, xp: 252458197 },
            Monster { level: 390, class: Class::Warrior, attributes: [35000, 11800, 12000, 40040, 8000], hp: 95873200, xp: 288853442 },
            Monster { level: 400, class: Class::Mage, attributes: [8500, 8500, 32000, 30000, 12000], hp: 52867840, xp: 300000000 },
            Monster { level: 410, class: Class::Scout, attributes: [8720, 34720, 8680, 33600, 12436], hp: 55238400, xp: 300000000 },
            Monster { level: 420, class: Class::Mage, attributes: [11100, 11200, 45000, 42800, 15940], hp: 36037600, xp: 300000000 },
            Monster { level: 430, class: Class::Warrior, attributes: [45800, 16060, 15935, 44400, 10170], hp: 95682000, xp: 300000000 },
            Monster { level: 440, class: Class::Scout, attributes: [11800, 47000, 11750, 45600, 16805], hp: 80438400, xp: 300000000 },
            Monster { level: 450, class: Class::Warrior, attributes: [57840, 20280, 20130, 56160, 12780], hp: 126640800, xp: 300000000 },
            Monster { level: 460, class: Class::Warrior, attributes: [59280, 20784, 20634, 57600, 13068], hp: 132768000, xp: 300000000 },
            Monster { level: 470, class: Class::Mage, attributes: [15120, 15240, 61200, 58560, 21648], hp: 55163520, xp: 300000000 },
            Monster { level: 480, class: Class::Mage, attributes: [18060, 18200, 73080, 70000, 25844], hp: 67340000, xp: 300000000 },
            Monster { level: 490, class: Class::Warrior, attributes: [74200, 26012, 25837, 72240, 16254], hp: 177349200, xp: 300000000 },
            Monster { level: 500, class: Class::Scout, attributes: [19040, 75880, 18970, 73920, 27055], hp: 148135680, xp: 300000000 },
        ],
        LightDungeon::Tower => seq![
            Monster { level: 200, class: Class::Warrior, attributes: [4194, 1697, 1665, 15940, 2589], hp: 16019700, xp: 267461 },
            Monster { level: 202, class: Class::Mage, attributes: [1714, 1678, 4242, 16140, 2622], hp: 6552840, xp: 279582 },
            Monster { level: 204, class: Class::Scout, attributes: [1730, 4292, 1695, 16328, 2654], hp: 13388960, xp: 292142 },
            Monster { level: 206, class: Class::Warrior, attributes: [4340, 1746, 1715, 16512, 2690], hp: 17089920, xp: 305197 },
            Monster { level: 208, class: Class::Warrior, attributes: [4385, 1763, 1733, 16712, 2726], hp: 17464040, xp: 318717 },
            Monster { level: 210, class: Class::Mage, attributes: [1782, 1747, 4434, 16896, 2757], hp: 7130112, xp: 332714 },
            Monster { level: 212, class: Class::Warrior, attributes: [4482, 1794, 1766, 17100, 2790], hp: 18211500, xp: 347250 },
            Monster { level: 214, class: Class::Mage, attributes: [1813, 1787, 4529, 17284, 2822], hp: 7432120, xp: 362294 },
            Monster { level: 216, class: Class::Mage, attributes: [1828, 1800, 4578, 17484, 2858], hp: 7588056, xp: 377859 },
            Monster { level: 218, class: Class::Warrior, attributes: [4627, 1847, 1818, 17680, 2891], hp: 19359600, xp: 394011 },
            Monster { level: 220, class: Class::Mage, attributes: [1861, 1835, 4674, 17860, 2927], hp: 7894120, xp: 410715 },
            Monster { level: 222, class: Class::Mage, attributes: [1878, 1855, 4723, 18064, 2957], hp: 8056544, xp: 427985 },
            Monster { level: 224, class: Class::Warrior, attributes: [4771, 1898, 1869, 18244, 2991], hp: 20524500, xp: 445894 },
            Monster { level: 226, class: Class::Warrior, attributes: [4820, 1909, 1887, 18440, 3027], hp: 20929400, xp: 464404 },
            Monster { level: 228, class: Class::Warrior, attributes: [4870, 1928, 1907, 18620, 3060], hp: 21319900, xp: 483529 },
            Monster { level: 230, class: Class::Mage, attributes: [1943, 1921, 4914, 18824, 3094], hp: 8696688, xp: 503347 },
            Monster { level: 232, class: Class::Warrior, attributes: [4964, 1962, 1940, 19020, 3126], hp: 22158300, xp: 523816 },
            Monster { level: 234, class: Class::Scout, attributes: [1977, 5012, 1957, 19204, 3160], hp: 18051760, xp: 544954 },
            Monster { level: 236, class: Class::Warrior, attributes: [5059, 1993, 1975, 19392, 3198], hp: 22979520, xp: 566842 },
            Monster { level: 238, class: Class::Scout, attributes: [2009, 5109, 1991, 19584, 3230], hp: 18722304, xp: 589435 },
            Monster { level: 240, class: Class::Warrior, attributes: [5157, 2024, 2009, 19780, 3262], hp: 23834900, xp: 612753 },
            Monster { level: 242, class: Class::Warrior, attributes: [5206, 2043, 2028, 19960, 3295], hp: 24251400, xp: 636884 },
            Monster { level: 244, class: Class::Warrior, attributes: [5252, 2058, 2042, 20160, 3330], hp: 24696000, xp: 661779 },
            Monster { level: 246, class: Class::Warrior, attributes: [5302, 2077, 2061, 20360, 3362], hp: 25144600, xp: 687457 },
            Monster { level: 248, class: Class::Mage, attributes: [2090, 2078, 5348, 20544, 3398], hp: 10230912, xp: 714012 },
            Monster { level: 250, class: Class::Scout, attributes: [2109, 5398, 2098, 20728, 3430], hp: 20810912, xp: 741394 },
            Monster { level: 252, class: Class::Scout, attributes: [2139, 5448, 2128, 20944, 3477], hp: 21195328, xp: 769623 },
            Monster { level: 254, class: Class::Warrior, attributes: [5498, 2173, 2162, 21160, 3522], hp: 26979000, xp: 798800 },
            Monster { level: 256, class: Class::Warrior, attributes: [5549, 2207, 2198, 21356, 3567], hp: 27442460, xp: 828869 },
            Monster { level: 258, class: Class::Warrior, attributes: [5596, 2241, 2228, 21572, 3613], hp: 27935740, xp: 859851 },
            Monster { level: 260, class: Class::Warrior, attributes: [5646, 2275, 2263, 21792, 3657], hp: 28438560, xp: 891854 },
            Monster { level: 262, class: Class::Mage, attributes: [2306, 2296, 5695, 21992, 3705], hp: 11567792, xp: 924818 },
            Monster { level: 264, class: Class::Warrior, attributes: [5744, 2340, 2331, 22204, 3751], hp: 29420300, xp: 958767 },
            Monster { level: 266, class: Class::Warrior, attributes: [5796, 2377, 2362, 22412, 3794], hp: 29920020, xp: 993815 },
            Monster { level: 268, class: Class::Warrior, attributes: [5846, 2405, 2396, 22628, 3840], hp: 30434660, xp: 1029897 },
            Monster { level: 270, class: Class::Scout, attributes: [2442, 5894, 2430, 22828, 3885], hp: 24745552, xp: 1067041 },
            Monster { level: 272, class: Class::Scout, attributes: [2472, 5945, 2465, 23044, 3934], hp: 25164048, xp: 1105366 },
            Monster { level: 274, class: Class::Warrior, attributes: [5995, 2507, 2498, 23264, 3975], hp: 31988000, xp: 1144805 },
            Monster { level: 276, class: Class::Warrior, attributes: [6046, 2538, 2531, 23452, 4022], hp: 32481020, xp: 1185383 },
            Monster { level: 278, class: Class::Warrior, attributes: [6092, 2572, 2566, 23668, 4069], hp: 33016860, xp: 1227233 },
            Monster { level: 280, class: Class::Mage, attributes: [2609, 2597, 6144, 23872, 4113], hp: 13416064, xp: 1270279 },
            Monster { level: 282, class: Class::Mage, attributes: [2638, 2632, 6195, 24088, 4161], hp: 13633808, xp: 1314549 },
            Monster { level: 284, class: Class::Warrior, attributes: [6245, 2671, 2668, 24292, 4203], hp: 34616100, xp: 1360180 },
            Monster { level: 286, class: Class::Scout, attributes: [2704, 6293, 2700, 24508, 4252], hp: 28135184, xp: 1407095 },
            Monster { level: 288, class: Class::Scout, attributes: [2738, 6346, 2731, 24716, 4294], hp: 28571696, xp: 1455324 },
            Monster { level: 290, class: Class::Warrior, attributes: [6396, 2771, 2765, 6231, 4340], hp: 36264420, xp: 1505015 },
            Monster { level: 292, class: Class::Scout, attributes: [2806, 6442, 2802, 25132, 4386], hp: 29454704, xp: 1556080 },
            Monster { level: 294, class: Class::Mage, attributes: [2841, 2832, 6492, 25344, 4431], hp: 14952960, xp: 1608553 },
            Monster { level: 296, class: Class::Mage, attributes: [2870, 2867, 6543, 25556, 4479], hp: 15180264, xp: 1662591 },
            Monster { level: 298, class: Class::Warrior, attributes: [6593, 2905, 2902, 25764, 4523], hp: 38517180, xp: 1718104 },
            Monster { level: 300, class: Class::Warrior, attributes: [6640, 2937, 2932, 25976, 4569], hp: 39093880, xp: 1775123 },
            Monster { level: 302, class: Class::Scout, attributes: [2974, 6711, 2971, 26224, 4611], hp: 31783488, xp: 1833815 },
            Monster { level: 304, class: Class::Warrior, attributes: [6776, 3010, 3013, 26464, 4654], hp: 40357600, xp: 1894085 },
            Monster { level: 306, class: Class::Mage, attributes: [3048, 3053, 6840, 26728, 4697], hp: 16410992, xp: 1955969 },
            Monster { level: 308, class: Class::Warrior, attributes: [6906, 3089, 3091, 26964, 4741], hp: 41659380, xp: 2019640 },
            Monster { level: 310, class: Class::Warrior, attributes: [6973, 3121, 3132, 27220, 4784], hp: 42327100, xp: 2084998 },
            Monster { level: 312, class: Class::Warrior, attributes: [7040, 3160, 3173, 27456, 4828], hp: 42968640, xp: 2152079 },
            Monster { level: 314, class: Class::Scout, attributes: [3196, 7105, 3212, 27708, 4875], hp: 34912080, xp: 2221072 },
            Monster { level: 316, class: Class::Mage, attributes: [3236, 3250, 7173, 27948, 4915], hp: 17719032, xp: 2291866 },
            Monster { level: 318, class: Class::Warrior, attributes: [7240, 3270, 3291, 28196, 4958], hp: 44972620, xp: 2364500 },
            Monster { level: 320, class: Class::Warrior, attributes: [7303, 3309, 3331, 28448, 5005], hp: 45659040, xp: 2439169 },
            Monster { level: 322, class: Class::Warrior, attributes: [7370, 3348, 3368, 28692, 5043], hp: 46337580, xp: 2515761 },
            Monster { level: 324, class: Class::Warrior, attributes: [7436, 3382, 3409, 7236, 5088], hp: 47034000, xp: 2594317 },
            Monster { level: 326, class: Class::Scout, attributes: [3422, 7501, 3448, 29188, 5132], hp: 38177904, xp: 2675047 },
            Monster { level: 328, class: Class::Warrior, attributes: [7567, 3458, 3487, 29436, 5177], hp: 48422220, xp: 2757826 },
            Monster { level: 330, class: Class::Warrior, attributes: [7634, 3495, 3528, 29696, 5217], hp: 49146880, xp: 2842697 },
            Monster { level: 332, class: Class::Scout, attributes: [3532, 7700, 3567, 29936, 5262], hp: 39874752, xp: 2929882 },
            Monster { level: 334, class: Class::Mage, attributes: [3568, 3609, 7768, 30188, 5305], hp: 20225960, xp: 3019251 },
            Monster { level: 336, class: Class::Warrior, attributes: [7833, 3609, 3645, 30424, 5347], hp: 51264440, xp: 3110849 },
            Monster { level: 338, class: Class::Warrior, attributes: [7900, 3641, 3687, 30676, 5392], hp: 51995820, xp: 3204909 },
            Monster { level: 340, class: Class::Warrior, attributes: [7967, 3680, 3729, 30912, 5436], hp: 52704960, xp: 3301294 },
            Monster { level: 342, class: Class::Warrior, attributes: [8031, 3717, 3764, 31168, 5480], hp: 53453120, xp: 3400051 },
            Monster { level: 344, class: Class::Mage, attributes: [3756, 3805, 8101, 31408, 5523], hp: 21671520, xp: 3501429 },
            Monster { level: 346, class: Class::Warrior, attributes: [8167, 3790, 3845, 31656, 5566], hp: 54923160, xp: 3605278 },
            Monster { level: 348, class: Class::Warrior, attributes: [8229, 3829, 3886, 31908, 5611], hp: 55679460, xp: 3711649 },
            Monster { level: 350, class: Class::Warrior, attributes: [8297, 3868, 3923, 32152, 5651], hp: 56426760, xp: 3820806 },
            Monster { level: 352, class: Class::Warrior, attributes: [8541, 3976, 4007, 33072, 5767], hp: 58372080, xp: 3932590 },
            Monster { level: 354, class: Class::Warrior, attributes: [8787, 4088, 4093, 33976, 5881], hp: 60307400, xp: 4047055 },
            Monster { level: 356, class: Class::Scout, attributes: [4199, 9029, 4175, 34896, 5997], hp: 49831488, xp: 4164472 },
            Monster { level: 358, class: Class::Warrior, attributes: [9274, 4313, 4256, 35824, 6107], hp: 64304080, xp: 4284681 },
            Monster { level: 360, class: Class::Warrior, attributes: [9996, 4642, 4556, 38556, 6534], hp: 69593584, xp: 4407738 },
            Monster { level: 362, class: Class::Warrior, attributes: [10761, 4999, 4877, 41494, 6989], hp: 75311608, xp: 4533933 },
            Monster { level: 364, class: Class::Warrior, attributes: [11583, 5380, 5215, 44629, 7466], hp: 81447928, xp: 4663087 },
            Monster { level: 366, class: Class::Warrior, attributes: [12460, 5781, 5578, 47979, 7980], hp: 88041464, xp: 4795261 },
            Monster { level: 368, class: Class::Warrior, attributes: [13397, 6214, 5957, 51532, 8525], hp: 95076544, xp: 4930763 },
            Monster { level: 370, class: Class::Mage, attributes: [6418, 6128, 13843, 53238, 8758], hp: 39502596, xp: 5069406 },
            Monster { level: 372, class: Class::Warrior, attributes: [14300, 6632, 6299, 54963, 8991], hp: 102505992, xp: 5211250 },
            Monster { level: 374, class: Class::Warrior, attributes: [14765, 6840, 6470, 56701, 9233], hp: 106314376, xp: 5356618 },
            Monster { level: 376, class: Class::Warrior, attributes: [15233, 7059, 6649, 58485, 9478], hp: 110244224, xp: 5505316 },
            Monster { level: 378, class: Class::Warrior, attributes: [15716, 7280, 6822, 60298, 9716], hp: 114264712, xp: 5657407 },
            Monster { level: 380, class: Class::Warrior, attributes: [16203, 7500, 7506, 62140, 9973], hp: 118376704, xp: 5813229 },
            Monster { level: 382, class: Class::Warrior, attributes: [16700, 7729, 7192, 16000, 10226], hp: 122561912, xp: 5972576 },
            Monster { level: 384, class: Class::Warrior, attributes: [17199, 7961, 7373, 65914, 10493], hp: 126884448, xp: 6135515 },
            Monster { level: 386, class: Class::Warrior, attributes: [17717, 8198, 7566, 67861, 10748], hp: 131311032, xp: 6302407 },
            Monster { level: 388, class: Class::Warrior, attributes: [18240, 8432, 7758, 69809, 11021], hp: 135778512, xp: 6473030 },
            Monster { level: 390, class: Class::Warrior, attributes: [18767, 8678, 7954, 71816, 11296], hp: 140400288, xp: 6647454 },
            Monster { level: 392, class: Class::Warrior, attributes: [19306, 8927, 8151, 73848, 11569], hp: 145111328, xp: 6826051 },
            Monster { level: 394, class: Class::Warrior, attributes: [19856, 9175, 8354, 75919, 11850], hp: 149940032, xp: 7008597 },
            Monster { level: 396, class: Class::Warrior, attributes: [20413, 9432, 8564, 78007, 12138], hp: 154843888, xp: 7195163 },
            Monster { level: 398, class: Class::Warrior, attributes: [20977, 9686, 8769, 80151, 12429], hp: 159901248, xp: 7386146 },
        ],
        LightDungeon::TimeHonoredSchoolofMagic => seq![
            Monster { level: 250, class: Class::Scout, attributes: [1400, 11000, 1400, 35000, 4500], hp: 62500000, xp: 31862139 },
            Monster { level: 257, class: Class::Warrior, attributes: [9722, 2404, 2426, 43730, 4764], hp: 79681528, xp: 36305620 },
            Monster { level: 265, class: Class::Scout, attributes: [1550, 11290, 1560, 44000, 4800], hp: 68425000, xp: 42016588 },
            Monster { level: 272, class: Class::Scout, attributes: [1965, 12320, 1980, 46000, 5940], hp: 73970000, xp: 47615630 },
            Monster { level: 280, class: Class::Mage, attributes: [3869, 3865, 12249, 49255, 7662], hp: 39995056, xp: 54764113 },
            Monster { level: 287, class: Class::Scout, attributes: [4465, 12440, 4430, 54100, 7960], hp: 94220000, xp: 61727510 },
            Monster { level: 295, class: Class::Scout, attributes: [3910, 12980, 3850, 54500, 7970], hp: 96325000, xp: 70595045 },
            Monster { level: 302, class: Class::Warrior, attributes: [14874, 3132, 1986, 58295, 8022], hp: 138640080, xp: 79213665 },
            Monster { level: 310, class: Class::Warrior, attributes: [14470, 5540, 5569, 70050, 10197], hp: 174284400, xp: 90125436 },
            Monster { level: 317, class: Class::Mage, attributes: [5911, 4338, 12174, 70050, 8540], hp: 71282872, xp: 100672054 },
            Monster { level: 325, class: Class::Mage, attributes: [3221, 3221, 16577, 61790, 8964], hp: 64459324, xp: 113997992 },
            Monster { level: 332, class: Class::Mage, attributes: [6128, 6057, 17028, 76695, 10905], hp: 83003160, xp: 126854805 },
            Monster { level: 340, class: Class::Mage, attributes: [5151, 5237, 18553, 79880, 12130], hp: 90152560, xp: 143018630 },
            Monster { level: 347, class: Class::Scout, attributes: [5875, 20170, 5870, 72300, 9320], hp: 168640000, xp: 158537364 },
            Monster { level: 355, class: Class::Mage, attributes: [5650, 5744, 19876, 86520, 12519], hp: 104723808, xp: 178017293 },
            Monster { level: 362, class: Class::Warrior, attributes: [19163, 9228, 9077, 96410, 13359], hp: 306222272, xp: 196694080 },
            Monster { level: 370, class: Class::Mage, attributes: [7773, 7772, 19358, 91315, 13191], hp: 116878632, xp: 220033230 },
            Monster { level: 377, class: Class::Mage, attributes: [5774, 5775, 24520, 96430, 13751], hp: 125754360, xp: 242313317 },
            Monster { level: 385, class: Class::Scout, attributes: [12400, 29300, 12600, 130350, 18640], hp: 379430016, xp: 270120546 },
            Monster { level: 400, class: Class::Mage, attributes: [8447, 8378, 30585, 126470, 18375], hp: 190324704, xp: 300000000 },
        ],
        LightDungeon::Hemorridor => seq![
            Monster { level: 200, class: Class::Warrior, attributes: [8800, 1120, 1120, 28000, 3600], hp: 28140000, xp: 11412835 },
            Monster { level: 213, class: Class::Warrior, attributes: [8069, 1995, 2014, 36296, 3954], hp: 38836720, xp: 15166093 },
            Monster { level: 228, class: Class::Mage, attributes: [1333, 1333, 9709, 37840, 4128], hp: 17330720, xp: 20723258 },
            Monster { level: 242, class: Class::Scout, attributes: [1749, 10965, 1762, 40940, 5287], hp: 39793680, xp: 27343418 },
            Monster { level: 258, class: Class::Scout, attributes: [3559, 11269, 3559, 45315, 7049], hp: 46946340, xp: 36987473 },
            Monster { level: 273, class: Class::Warrior, attributes: [11818, 4209, 4209, 51395, 7562], hp: 70411152, xp: 48459828 },
            Monster { level: 289, class: Class::Scout, attributes: [3832, 12720, 3773, 53410, 7811], hp: 61955600, xp: 63853128 },
            Monster { level: 305, class: Class::Mage, attributes: [3163, 3163, 15023, 58878, 8102], hp: 36033336, xp: 83158305 },
            Monster { level: 319, class: Class::Warrior, attributes: [14904, 5706, 5736, 72152, 10503], hp: 115443200, xp: 103875282 },
            Monster { level: 333, class: Class::Scout, attributes: [6207, 12783, 6207, 73553, 8967], hp: 98266808, xp: 128778486 },
            Monster { level: 348, class: Class::Warrior, attributes: [17737, 3446, 3446, 66115, 9591], hp: 115370672, xp: 160885033 },
            Monster { level: 362, class: Class::Warrior, attributes: [18561, 6602, 6602, 83598, 11886], hp: 151730368, xp: 196694080 },
            Monster { level: 377, class: Class::Mage, attributes: [5718, 5813, 20594, 88667, 13464], hp: 67032252, xp: 242313317 },
            Monster { level: 392, class: Class::Scout, attributes: [6639, 22792, 663, 81699, 10532], hp: 128430832, xp: 296636662 },
            Monster { level: 408, class: Class::Mage, attributes: [6497, 6606, 22857, 99498, 14397], hp: 81389360, xp: 300000000 },
            Monster { level: 424, class: Class::Warrior, attributes: [22421, 10797, 10620, 112800, 15630], hp: 239700000, xp: 300000000 },
            Monster { level: 440, class: Class::Scout, attributes: [9250, 23036, 9250, 108665, 15697], hp: 191685056, xp: 300000000 },
            Monster { level: 456, class: Class::Warrior, attributes: [29669, 6998, 6998, 116680, 16639], hp: 266613792, xp: 300000000 },
            Monster { level: 474, class: Class::Warrior, attributes: [36039, 15498, 15498, 160331, 22927], hp: 380786112, xp: 300000000 },
            Monster { level: 500, class: Class::Warrior, attributes: [38231, 10473, 10474, 158088, 22969], hp: 396010432, xp: 300000000 },
        ],
        LightDungeon::NordicGods => seq![
            Monster { level: 210, class: Class::Warrior, attributes: [8000, 2000, 2000, 36000, 4000], hp: 43560000, xp: 14222021 },
            Monster { level: 240, class: Class::Mage, attributes: [10965, 1762, 12000, 40500, 5000], hp: 55687500, xp: 26302843 },
            Monster { level: 270, class: Class::Mage, attributes: [4000, 4000, 11500, 51000, 7500], hp: 31416000, xp: 45958126 },
            Monster { level: 305, class: Class::Warrior, attributes: [15000, 3500, 3500, 58500, 8000], hp: 101351256, xp: 83158305 },
            Monster { level: 330, class: Class::Warrior, attributes: [12500, 6000, 6000, 73500, 9000], hp: 137445008, xp: 123067419 },
            Monster { level: 360, class: Class::Scout, attributes: [6500, 18500, 6500, 83500, 11500], hp: 135938000, xp: 191202824 },
            Monster { level: 390, class: Class::Warrior, attributes: [22500, 6500, 6500, 81500, 10500], hp: 143440000, xp: 288853442 },
            Monster { level: 420, class: Class::Scout, attributes: [10500, 22500, 10500, 112500, 15500], hp: 212850000, xp: 300000000 },
            Monster { level: 455, class: Class::Warrior, attributes: [29500, 7000, 7000, 115000, 16000], hp: 235290000, xp: 300000000 },
            Monster { level: 500, class: Class::Warrior, attributes: [38500, 10500, 10500, 158000, 23000], hp: 354552000, xp: 300000000 },
        ],
        LightDungeon::MountOlympus => seq![
            Monster { level: 210, class: Class::Mage, attributes: [2000, 2000, 8000, 80000, 4000], hp: 52800000, xp: 14222021 },
            Monster { level: 240, class: Class::Warrior, attributes: [12000, 4000, 4000, 100000, 5000], hp: 187500000, xp: 26302843 },
            Monster { level: 270, class: Class::Scout, attributes: [6000, 16000, 6000, 120000, 6000], hp: 201600000, xp: 45958126 },
            Monster { level: 305, class: Class::Mage, attributes: [8000, 8000, 20000, 140000, 7000], hp: 132300000, xp: 83158305 },
            Monster { level: 330, class: Class::Mage, attributes: [10000, 10000, 24000, 160000, 8000], hp: 163200000, xp: 123067419 },
            Monster { level: 360, class: Class::Warrior, attributes: [28000, 12000, 12000, 180000, 10000], hp: 499500000, xp: 191202824 },
            Monster { level: 390, class: Class::Warrior, attributes: [32000, 14000, 14000, 200000, 11000], hp: 600000000, xp: 288853442 },
            Monster { level: 420, class: Class::Scout, attributes: [16000, 36000, 16000, 220000, 12000], hp: 567600000, xp: 300000000 },
            Monster { level: 455, class: Class::Scout, attributes: [28000, 40000, 28000, 250000, 13000], hp: 697500032, xp: 300000000 },
            Monster { level: 500, class: Class::Mage, attributes: [33333, 33333, 44444, 300000, 15000], hp: 459000000, xp: 300000000 },
        ],
        LightDungeon::TavernoftheDarkDoppelgangers => seq![
            Monster { level: 410, class: Class::Mage, attributes: [7000, 7000, 20000, 18000, 4000], hp: 10000000, xp: 300000000 },
            Monster { level: 420, class: Class::Warrior, attributes: [24000, 8500, 8500, 20000, 5000], hp: 30000000, xp: 300000000 },
            Monster { level: 430, class: Class::Warrior, attributes: [29000, 10000, 10000, 22000, 6000], hp: 25000000, xp: 300000000 },
            Monster { level: 440, class: Class::Scout, attributes: [12000, 35000, 12000, 24000, 7500], hp: 35000000, xp: 300000000 },
            Monster { level: 450, class: Class::Warrior, attributes: [42000, 15000, 15000, 26000, 9000], hp: 10000000, xp: 300000000 },
            Monster { level: 460, class: Class::Mage, attributes: [18000, 18000, 50000, 29000, 11000], hp: 25000000, xp: 300000000 },
            Monster { level: 470, class: Class::Scout, attributes: [21000, 60000, 21000, 32000, 13000], hp: 35000000, xp: 300000000 },
            Monster { level: 480, class: Class::Mage, attributes: [25000, 25000, 72000, 35000, 15000], hp: 50000000, xp: 300000000 },
            Monster { level: 490, class: Class::Warrior, attributes: [86000, 30000, 30000, 39000, 19000], hp: 30000000, xp: 300000000 },
            Monster { level: 500, class: Class::Mage, attributes: [35000, 35000, 90000, 43000, 21000], hp: 50000000, xp: 300000000 },
        ],
        LightDungeon::DragonsHoard => seq![
            Monster { level: 210, class: Class::Scout, attributes: [3100, 6200, 3100, 10500, 3100], hp: 16000000, xp: 14222021 },
            Monster { level: 213, class: Class::Warrior, attributes: [6560, 3280, 3280, 12000, 3280], hp: 20500000, xp: 15166093 },
            Monster { level: 216, class: Class::Mage, attributes: [3460, 3460, 6920, 13500, 3460], hp: 0, xp: 0 },
            Monster { level: 219, class: Class::Scout, attributes: [3640, 7280, 3640, 15000, 3640], hp: 29500000, xp: 17216101 },
            Monster { level: 222, class: Class::Scout, attributes: [3820, 7640, 3820, 16500, 3820], hp: 34000000, xp: 18327374 },
            Monster { level: 225, class: Class::Scout, attributes: [4000, 8000, 4000, 18000, 4000], hp: 38500000, xp: 19491852 },
            Monster { level: 228, class: Class::Warrior, attributes: [8360, 4180, 4180, 19500, 4180], hp: 43000000, xp: 20723258 },
            Monster { level: 231, class: Class::Warrior, attributes: [8720, 4360, 4360, 21000, 4360], hp: 47500000, xp: 22012436 },
            Monster { level: 234, class: Class::Scout, attributes: [4540, 9080, 4540, 22500, 4540], hp: 52000000, xp: 23374540 },
            Monster { level: 240, class: Class::Mage, attributes: [4900, 4900, 9800, 25500, 4900], hp: 61000000, xp: 26302843 },
        ],
        LightDungeon::HouseOfHorrors => seq![
            Monster { level: 240, class: Class::Mage, attributes: [4900, 4900, 9800, 25500, 4900], hp: 61000000, xp: 26302843 },
            Monster { level: 243, class: Class::Warrior, attributes: [10160, 5080, 5080, 27000, 5080], hp: 65500000, xp: 27874231 },
            Monster { level: 246, class: Class::Warrior, attributes: [10520, 5260, 5260, 28500, 5260], hp: 70000000, xp: 29531221 },
            Monster { level: 249, class: Class::Warrior, attributes: [10880, 5440, 5440, 30000, 5440], hp: 74500000, xp: 31261572 },
            Monster { level: 252, class: Class::Scout, attributes: [5620, 11240, 5620, 31500, 5620], hp: 79000000, xp: 33084028 },
            Monster { level: 255, class: Class::Mage, attributes: [5800, 5800, 11600, 33000, 5800], hp: 83500000, xp: 34985806 },
            Monster { level: 258, class: Class::Scout, attributes: [5980, 11960, 5980, 34500, 5980], hp: 88000000, xp: 36987473 },
            Monster { level: 261, class: Class::Mage, attributes: [6160, 6160, 12320, 36000, 6160], hp: 92500000, xp: 39074626 },
            Monster { level: 264, class: Class::Mage, attributes: [6340, 6340, 12680, 37500, 6340], hp: 97000000, xp: 41269055 },
            Monster { level: 270, class: Class::Scout, attributes: [6700, 13400, 6700, 40500, 6700], hp: 106000000, xp: 45958126 },
        ],
        LightDungeon::ThirdLeagueOfSuperheroes => seq![
            Monster { level: 280, class: Class::Mage, attributes: [7300, 7300, 14600, 45500, 7300], hp: 121000000, xp: 54764113 },
            Monster { level: 283, class: Class::Warrior, attributes: [14960, 7480, 7480, 47000, 7480], hp: 125500000, xp: 57660160 },
            Monster { level: 286, class: Class::Scout, attributes: [7660, 15320, 7660, 48500, 7660], hp: 130000000, xp: 60696773 },
            Monster { level: 289, class: Class::Warrior, attributes: [15680, 7840, 7840, 50000, 7840], hp: 134500000, xp: 63853128 },
            Monster { level: 292, class: Class::Scout, attributes: [8020, 16040, 8020, 51500, 8020], hp: 139000000, xp: 67159972 },
            Monster { level: 295, class: Class::Warrior, attributes: [16400, 8200, 8200, 53000, 8200], hp: 143500000, xp: 70595045 },
            Monster { level: 298, class: Class::Scout, attributes: [8380, 16760, 8380, 54500, 8380], hp: 148000000, xp: 74191870 },
            Monster { level: 301, class: Class::Mage, attributes: [8560, 8560, 17120, 56000, 8560], hp: 152500000, xp: 77926126 },
            Monster { level: 304, class: Class::Mage, attributes: [8740, 8740, 17480, 57500, 8740], hp: 157000000, xp: 81832831 },
            Monster { level: 310, class: Class::Scout, attributes: [9100, 18200, 9100, 60500, 9100], hp: 166000000, xp: 90125436 },
        ],
        LightDungeon::DojoOfChildhoodHeroes => seq![
            Monster { level: 313, class: Class::Warrior, attributes: [18560, 9280, 9280, 62000, 9280], hp: 170500000, xp: 94521325 },
            Monster { level: 316, class: Class::Warrior, attributes: [18920, 9460, 9460, 63500, 9460], hp: 175000000, xp: 99114456 },
            Monster { level: 319, class: Class::Mage, attributes: [9640, 9640, 19280, 65000, 9640], hp: 179500000, xp: 103875282 },
            Monster { level: 322, class: Class::Warrior, attributes: [19640, 9820, 9820, 66500, 9820], hp: 184000000, xp: 108847145 },
            Monster { level: 325, class: Class::Mage, attributes: [10000, 10000, 20000, 68000, 10000], hp: 188500000, xp: 113997992 },
            Monster { level: 328, class: Class::Scout, attributes: [10180, 20360, 10180, 69500, 10180], hp: 193000000, xp: 119373368 },
            Monster { level: 331, class: Class::Mage, attributes: [10360, 10360, 20720, 71000, 10360], hp: 197500000, xp: 124939452 },
            Monster { level: 334, class: Class::Mage, attributes: [10540, 10540, 21080, 72500, 10540], hp: 202000000, xp: 130745487 },
            Monster { level: 337, class: Class::Warrior, attributes: [21440, 10720, 10720, 74000, 10720], hp: 206500000, xp: 136754704 },
            Monster { level: 340, class: Class::Mage, attributes: [10900, 10900, 21800, 75500, 10900], hp: 211000000, xp: 143018630 },
        ],
        LightDungeon::MonsterGrotto => seq![
            Monster { level: 480, class: Class::Warrior, attributes: [66000, 35000, 35000, 174000, 35000], hp: 540000000, xp: 300000000 },
            Monster { level: 483, class: Class::Mage, attributes: [35750, 35750, 67350, 176400, 35750], hp: 549000000, xp: 300000000 },
            Monster { level: 486, class: Class::Scout, attributes: [36500, 68700, 36500, 178800, 36500], hp: 558000000, xp: 300000000 },
            Monster { level: 489, class: Class::Warrior, attributes: [70050, 37250, 37250, 181200, 37250], hp: 567000000, xp: 300000000 },
            Monster { level: 492, class: Class::Mage, attributes: [38000, 38000, 71400, 183600, 38000], hp: 576000000, xp: 300000000 },
            Monster { level: 495, class: Class::Warrior, attributes: [72750, 38750, 38750, 186000, 38750], hp: 585000000, xp: 300000000 },
            Monster { level: 498, class: Class::Scout, attributes: [39500, 74100, 39500, 188400, 39500], hp: 594000000, xp: 300000000 },
            Monster { level: 501, class: Class::Scout, attributes: [40250, 80500, 40250, 190800, 40250], hp: 603000000, xp: 300000000 },
            Monster { level: 504, class: Class::Warrior, attributes: [82000, 41000, 41000, 193200, 41000], hp: 612000000, xp: 300000000 },
            Monster { level: 510, class: Class::Warrior, attributes: [85000, 42500, 42500, 198000, 42500], hp: 630000000, xp: 300000000 },
        ],
        LightDungeon::CityOfIntrigues => Seq::empty(),
        LightDungeon::SchoolOfMagicExpress => Seq::empty(),
        LightDungeon::AshMountain => Seq::empty(),
        LightDungeon::PlayaGamesHQ => Seq::empty(),
        LightDungeon::TrainingCamp => Seq::empty(),
        LightDungeon::Sandstorm => Seq::empty(),
    }
}

/// The enemies of a light dungeon, in the order in which they are fought.
#[verifier::rlimit(50)]
pub fn light_enemies(d: LightDungeon) -> (r: Vec<Monster>)
    ensures
        r@ == spec_light_enemies(d),
{
    match d {
        LightDungeon::DesecratedCatacombs => vec![
            Monster { level: 10, class: Class::Mage, attributes: [48, 52, 104, 77, 47], hp: 1694, xp: 1287 },
            Monster { level: 12, class: Class::Warrior, attributes: [120, 68, 59, 101, 51], hp: 6565, xp: 1785 },
            Monster { level: 14, class: Class::Warrior, attributes: [149, 78, 69, 124, 65], hp: 9300, xp: 2395 },
            Monster { level: 16, class: Class::Scout, attributes: [84, 195, 83, 131, 94], hp: 8908, xp: 3146 },
            Monster { level: 18, class: Class::Warrior, attributes: [214, 135, 122, 260, 142], hp: 16055, xp: 4050 },
            Monster { level: 22, class: Class::Mage, attributes: [97, 99, 303, 198, 137], hp: 9108, xp: 6412 },
            Monster { level: 26, class: Class::Warrior, attributes: [359, 135, 122, 260, 142], hp: 35100, xp: 9631 },
            Monster { level: 30, class: Class::Mage, attributes: [126, 130, 460, 279, 193], hp: 17298, xp: 13952 },
            Monster { level: 40, class: Class::Warrior, attributes: [614, 207, 191, 445, 238], hp: 91225, xp: 30909 },
            Monster { level: 50, class: Class::Scout, attributes: [221, 847, 213, 561, 292], hp: 114444, xp: 60343 },
        ],
        LightDungeon::MinesOfGloria => vec![
            Monster { level: 20, class: Class::Scout, attributes: [101, 264, 101, 174, 119], hp: 14616, xp: 2124 },
            Monster { level: 24, class: Class::Warrior, attributes: [317, 126, 117, 238, 130], hp: 29750, xp: 7909 },
            Monster { level: 28, class: Class::Warrior, attributes: [393, 138, 125, 284, 152], hp: 41180, xp: 11652 },
            Monster { level: 34, class: Class::Scout, attributes: [143, 554, 144, 303, 216], hp: 42420, xp: 19539 },
            Monster { level: 38, class: Class::Warrior, attributes: [592, 178, 162, 398, 195], hp: 77610, xp: 26652 },
            Monster { level: 44, class: Class::Mage, attributes: [191, 190, 780, 411, 259], hp: 36990, xp: 40886 },
            Monster { level: 48, class: Class::Warrior, attributes: [744, 243, 230, 563, 246], hp: 137935, xp: 53228 },
            Monster { level: 56, class: Class::Scout, attributes: [250, 960, 240, 680, 345], hp: 155040, xp: 86309 },
            Monster { level: 66, class: Class::Scout, attributes: [300, 1160, 290, 880, 420], hp: 235840, xp: 148282 },
            Monster { level: 70, class: Class::Warrior, attributes: [1240, 385, 360, 960, 340], hp: 340800, xp: 181085 },
        ],
        LightDungeon::RuinsOfGnark => vec![
            Monster { level: 32, class: Class::Scout, attributes: [155, 486, 161, 276, 205], hp: 36432, xp: 16557 },
            Monster { level: 36, class: Class::Scout, attributes: [141, 602, 149, 344, 230], hp: 50912, xp: 22893 },
            Monster { level: 42, class: Class::Scout, attributes: [205, 726, 224, 403, 247], hp: 69316, xp: 35642 },
            Monster { level: 46, class: Class::Warrior, attributes: [768, 215, 183, 539, 249], hp: 126665, xp: 46757 },
            Monster { level: 54, class: Class::Warrior, attributes: [920, 265, 240, 640, 260], hp: 176000, xp: 76872 },
            Monster { level: 60, class: Class::Scout, attributes: [270, 1040, 260, 760, 375], hp: 185400, xp: 108013 },
            Monster { level: 64, class: Class::Warrior, attributes: [1120, 340, 315, 840, 310], hp: 273000, xp: 133734 },
            Monster { level: 76, class: Class::Scout, attributes: [350, 1360, 340, 1080, 495], hp: 332640, xp: 240784 },
            Monster { level: 86, class: Class::Warrior, attributes: [1560, 505, 480, 1280, 420], hp: 556800, xp: 374041 },
            Monster { level: 90, class: Class::Warrior, attributes: [1640, 535, 510, 1360, 440], hp: 618800, xp: 441608 },
        ],
        LightDungeon::CutthroatGrotto => vec![
            Monster { level: 52, class: Class::Scout, attributes: [230, 880, 220, 601, 315], hp: 127412, xp: 68234 },
            Monster { level: 58, class: Class::Scout, attributes: [260, 1000, 250, 720, 360], hp: 169920, xp: 96706 },
            Monster { level: 62, class: Class::Warrior, attributes: [1080, 325, 300, 800, 300], hp: 252000, xp: 120287 },
            Monster { level: 68, class: Class::Warrior, attributes: [1200, 370, 345, 920, 330], hp: 317400, xp: 163994 },
            Monster { level: 74, class: Class::Warrior, attributes: [1320, 415, 390, 1040, 360], hp: 390000, xp: 163994 },
            Monster { level: 82, class: Class::Scout, attributes: [380, 1480, 370, 1200, 540], hp: 398400, xp: 315135 },
            Monster { level: 84, class: Class::Warrior, attributes: [1520, 490, 465, 1240, 410], hp: 527000, xp: 343618 },
            Monster { level: 96, class: Class::Warrior, attributes: [1760, 580, 555, 1480, 470], hp: 717800, xp: 560797 },
            Monster { level: 102, class: Class::Scout, attributes: [480, 1880, 470, 1600, 690], hp: 659200, xp: 704509 },
            Monster { level: 110, class: Class::Scout, attributes: [520, 2040, 510, 1760, 750], hp: 781440, xp: 940791 },
        ],
        LightDungeon::EmeraldScaleAltar => vec![
            Monster { level: 72, class: Class::Scout, attributes: [330, 1280, 320, 1000, 465], hp: 292000, xp: 199497 },
            Monster { level: 78, class: Class::Scout, attributes: [360, 1400, 350, 1120, 510], hp: 353920, xp: 263817 },
            Monster { level: 80, class: Class::Scout, attributes: [370, 1440, 360, 1160, 525], hp: 375840, xp: 288496 },
            Monster { level: 88, class: Class::Scout, attributes: [410, 1600, 400, 1320, 585], hp: 469920, xp: 406744 },
            Monster { level: 94, class: Class::Warrior, attributes: [1720, 565, 540, 1440, 460], hp: 684000, xp: 518518 },
            Monster { level: 100, class: Class::Scout, attributes: [470, 1840, 460, 1560, 675], hp: 630240, xp: 653687 },
            Monster { level: 108, class: Class::Warrior, attributes: [2000, 670, 645, 1720, 530], hp: 937400, xp: 876584 },
            Monster { level: 114, class: Class::Mage, attributes: [520, 540, 2200, 1760, 775], hp: 404800, xp: 1081088 },
            Monster { level: 122, class: Class::Warrior, attributes: [2280, 775, 750, 2000, 600], hp: 1230000, xp: 1412064 },
            Monster { level: 130, class: Class::Scout, attributes: [620, 2440, 610, 2160, 900], hp: 1131840, xp: 1821461 },
        ],
        LightDungeon::ToxicTree => vec![
            Monster { level: 92, class: Class::Warrior, attributes: [1680, 550, 525, 1400, 450], hp: 651000, xp: 478738 },
            Monster { level: 98, class: Class::Scout, attributes: [460, 1800, 450, 1520, 660], hp: 601920, xp: 605700 },
            Monster { level: 104, class: Class::Mage, attributes: [470, 490, 2000, 1560, 700], hp: 327600, xp: 758451 },
            Monster { level: 106, class: Class::Scout, attributes: [500, 1960, 490, 1680, 720], hp: 719040, xp: 815853 },
            Monster { level: 118, class: Class::Scout, attributes: [560, 2200, 520, 1920, 810], hp: 913920, xp: 1237696 },
            Monster { level: 124, class: Class::Warrior, attributes: [2320, 790, 765, 2040, 610], hp: 1275000, xp: 1506706 },
            Monster { level: 128, class: Class::Scout, attributes: [610, 2400, 600, 2120, 885], hp: 1093920, xp: 1710914 },
            Monster { level: 136, class: Class::Mage, attributes: [630, 650, 2640, 2200, 940], hp: 602800, xp: 2187846 },
            Monster { level: 144, class: Class::Scout, attributes: [690, 2720, 680, 2440, 1005], hp: 1415200, xp: 2767832 },
            Monster { level: 150, class: Class::Scout, attributes: [720, 2840, 710, 2560, 1050], hp: 1546240, xp: 3280697 },
        ],
        LightDungeon::MagmaStream => vec![
            Monster { level: 112, class: Class::Scout, attributes: [530, 2080, 520, 1800, 765], hp: 813600, xp: 1009041 },
            Monster { level: 116, class: Class::Scout, attributes: [550, 2160, 540, 1880, 795], hp: 879840, xp: 1157092 },
            Monster { level: 120, class: Class::Mage, attributes: [550, 570, 2320, 1880, 820], hp: 454960, xp: 1322625 },
            Monster { level: 126, class: Class::Warrior, attributes: [2360, 805, 780, 2080, 620], hp: 1320800, xp: 1606255 },
            Monster { level: 134, class: Class::Warrior, attributes: [2520, 865, 840, 2240, 660], hp: 1512000, xp: 2059369 },
            Monster { level: 138, class: Class::Warrior, attributes: [2600, 895, 870, 2320, 680], hp: 1612400, xp: 2322552 },
            Monster { level: 142, class: Class::Mage, attributes: [660, 680, 2760, 2320, 985], hp: 663520, xp: 2612278 },
            Monster { level: 146, class: Class::Warrior, attributes: [2760, 955, 930, 2480, 720], hp: 1822800, xp: 2930646 },
            Monster { level: 148, class: Class::Warrior, attributes: [2800, 970, 945, 2520, 730], hp: 1877400, xp: 3101774 },
            Monster { level: 170, class: Class::Warrior, attributes: [3240, 1135, 1110, 2960, 840], hp: 2530800, xp: 5583708 },
        ],
        LightDungeon::FrostBloodTemple => vec![
            Monster { level: 132, class: Class::Warrior, attributes: [2480, 850, 825, 2200, 650], hp: 1463000, xp: 1937541 },
            Monster { level: 140, class: Class::Scout, attributes: [670, 2640, 660, 2360, 975], hp: 1331040, xp: 2463717 },
            Monster { level: 154, class: Class::Warrior, attributes: [2920, 1015, 990, 2640, 760], hp: 2046000, xp: 3663979 },
            Monster { level: 158, class: Class::Scout, attributes: [760, 3000, 750, 2720, 1110], hp: 1729920, xp: 4082943 },
            Monster { level: 164, class: Class::Scout, attributes: [790, 3120, 780, 2840, 1155], hp: 1874400, xp: 4785109 },
            Monster { level: 168, class: Class::Mage, attributes: [790, 810, 3280, 2840, 1180], hp: 959920, xp: 5306545 },
            Monster { level: 172, class: Class::Warrior, attributes: [3280, 1150, 1125, 3000, 850], hp: 2595000, xp: 5873522 },
            Monster { level: 180, class: Class::Scout, attributes: [870, 3440, 860, 3160, 1275], hp: 2287840, xp: 7157815 },
            Monster { level: 185, class: Class::Mage, attributes: [875, 895, 3620, 3180, 1305], hp: 1182960, xp: 8070081 },
            Monster { level: 200, class: Class::Mage, attributes: [950, 970, 3920, 3480, 1410], hp: 1398960, xp: 11412835 },
        ],
        LightDungeon::PyramidsofMadness => vec![
            Monster { level: 152, class: Class::Warrior, attributes: [2880, 1000, 975, 2600, 750], hp: 1989000, xp: 3467701 },
            Monster { level: 156, class: Class::Mage, attributes: [730, 750, 3040, 2600, 1090], hp: 816400, xp: 3868959 },
            Monster { level: 160, class: Class::Scout, attributes: [770, 3040, 760, 2760, 1125], hp: 1777440, xp: 4307201 },
            Monster { level: 162, class: Class::Warrior, attributes: [3080, 1075, 1050, 2800, 800], hp: 2282000, xp: 4541147 },
            Monster { level: 166, class: Class::Mage, attributes: [780, 800, 3240, 2800, 1165], hp: 935200, xp: 5040468 },
            Monster { level: 174, class: Class::Warrior, attributes: [3320, 1165, 1140, 3040, 860], hp: 2660000, xp: 6175189 },
            Monster { level: 176, class: Class::Scout, attributes: [850, 3360, 840, 3080, 1245], hp: 2180640, xp: 6489101 },
            Monster { level: 178, class: Class::Scout, attributes: [860, 3400, 850, 3120, 1260], hp: 2233920, xp: 6816906 },
            Monster { level: 190, class: Class::Mage, attributes: [900, 920, 3720, 3280, 1340], hp: 1252960, xp: 9081081 },
            Monster { level: 0, class: Class::Warrior, attributes: [0, 0, 0, 0, 0], hp: 0, xp: 0 },
        ],
        LightDungeon::BlackSkullFortress => vec![
            Monster { level: 205, class: Class::Scout, attributes: [995, 3940, 985, 3660, 1450], hp: 3015840, xp: 12751538 },
            Monster { level: 210, class: Class::Warrior, attributes: [4040, 1420, 1395, 3760, 1010], hp: 3966800, xp: 14222021 },
            Monster { level: 215, class: Class::Warrior, attributes: [4140, 1455, 1430, 3860, 1030], hp: 4168800, xp: 15824529 },
            Monster { level: 220, class: Class::Warrior, attributes: [4240, 1490, 1465, 3960, 1050], hp: 4375800, xp: 17581974 },
            Monster { level: 225, class: Class::Scout, attributes: [1095, 4340, 1085, 4060, 1590], hp: 3670240, xp: 19491852 },
            Monster { level: 230, class: Class::Scout, attributes: [1120, 4440, 1110, 4160, 1645], hp: 3843840, xp: 21576743 },
            Monster { level: 235, class: Class::Mage, attributes: [1125, 1145, 4620, 4180, 1655], hp: 1972960, xp: 23839326 },
            Monster { level: 240, class: Class::Warrior, attributes: [4640, 1630, 1605, 4360, 1130], hp: 5253800, xp: 26302843 },
            Monster { level: 245, class: Class::Warrior, attributes: [4740, 1665, 1640, 4460, 1150], hp: 5485800, xp: 28966329 },
            Monster { level: 250, class: Class::Warrior, attributes: [4840, 1700, 1675, 4560, 1170], hp: 5722800, xp: 31862139 },
        ],
        LightDungeon::CircusOfHorror => vec![
            Monster { level: 255, class: Class::Warrior, attributes: [4940, 1735, 1710, 4660, 1190], hp: 5964800, xp: 34985806 },
            Monster { level: 260, class: Class::Scout, attributes: [1270, 5040, 1260, 4760, 1835], hp: 4969440, xp: 38369989 },
            Monster { level: 265, class: Class::Warrior, attributes: [5140, 1805, 1780, 4860, 1230], hp: 6463800, xp: 42016588 },
            Monster { level: 270, class: Class::Warrior, attributes: [5240, 1840, 1815, 4960, 1250], hp: 6720800, xp: 45958126 },
            Monster { level: 275, class: Class::Mage, attributes: [1325, 1345, 5420, 4980, 1935], hp: 2748960, xp: 50191950 },
            Monster { level: 280, class: Class::Scout, attributes: [1370, 5440, 1360, 5160, 1975], hp: 5799840, xp: 54764113 },
            Monster { level: 285, class: Class::Warrior, attributes: [5540, 1945, 1920, 5260, 1310], hp: 7521800, xp: 59666036 },
            Monster { level: 290, class: Class::Scout, attributes: [1420, 5640, 1410, 5360, 2045], hp: 6239040, xp: 64942539 },
            Monster { level: 295, class: Class::Mage, attributes: [1425, 1445, 5820, 5380, 2075], hp: 3184960, xp: 70595045 },
            Monster { level: 300, class: Class::Warrior, attributes: [5840, 2050, 2025, 5560, 1370], hp: 8787200, xp: 76669139 },
        ],
        LightDungeon::Hell => vec![
            Monster { level: 305, class: Class::Mage, attributes: [1475, 1495, 6020, 5580, 2145], hp: 3414960, xp: 83158305 },
            Monster { level: 310, class: Class::Mage, attributes: [1500, 1520, 6120, 5680, 2180], hp: 3532960, xp: 90125436 },
            Monster { level: 315, class: Class::Warrior, attributes: [6140, 2155, 2130, 5860, 2255], hp: 9258800, xp: 97556858 },
            Monster { level: 320, class: Class::Scout, attributes: [1570, 6240, 1560, 5960, 2255], hp: 7652640, xp: 105514978 },
            Monster { level: 325, class: Class::Mage, attributes: [1575, 1595, 6420, 5980, 2285], hp: 3898960, xp: 113997992 },
            Monster { level: 330, class: Class::Warrior, attributes: [6440, 2260, 2235, 6160, 1490], hp: 10194800, xp: 123067419 },
            Monster { level: 335, class: Class::Scout, attributes: [1645, 6540, 1635, 6260, 2360], hp: 8413440, xp: 132712488 },
            Monster { level: 340, class: Class::Warrior, attributes: [6640, 2330, 2305, 6360, 1530], hp: 10843800, xp: 143018630 },
            Monster { level: 345, class: Class::Warrior, attributes: [6740, 2365, 2340, 6460, 1550], hp: 11175800, xp: 153964246 },
            Monster { level: 350, class: Class::Warrior, attributes: [6840, 2400, 2375, 6560, 1570], hp: 11512800, xp: 165631756 },
        ],
        LightDungeon::The13thFloor => vec![
            Monster { level: 355, class: Class::Warrior, attributes: [7570, 2655, 2630, 7290, 1716], hp: 12976200, xp: 178017293 },
            Monster { level: 360, class: Class::Mage, attributes: [1970, 1990, 8000, 7560, 2838], hp: 5458320, xp: 191202824 },
            Monster { level: 365, class: Class::Warrior, attributes: [8290, 2908, 2882, 8010, 1860], hp: 14658300, xp: 205171015 },
            Monster { level: 370, class: Class::Mage, attributes: [2160, 2180, 8760, 8320, 3104], hp: 6173440, xp: 220033230 },
            Monster { level: 375, class: Class::Warrior, attributes: [9340, 3275, 3250, 9060, 2070], hp: 17032800, xp: 235758967 },
            Monster { level: 380, class: Class::Scout, attributes: [2682, 10690, 2672, 10410, 3812], hp: 15864840, xp: 252458197 },
            Monster { level: 385, class: Class::Mage, attributes: [2888, 2908, 11670, 11230, 4122], hp: 8669560, xp: 270120546 },
            Monster { level: 390, class: Class::Warrior, attributes: [12540, 4395, 4370, 12260, 2710], hp: 23968300, xp: 288853442 },
            Monster { level: 395, class: Class::Warrior, attributes: [13540, 4725, 4720, 13260, 2910], hp: 26540800, xp: 308630400 },
            Monster { level: 400, class: Class::Warrior, attributes: [16840, 5900, 5875, 16540, 3570], hp: 33202800, xp: 329599075 },
            Monster { level: 410, class: Class::Scout, attributes: [7080, 20200, 7050, 18210, 4280], hp: 29937240, xp: 300000000 },
            Monster { level: 420, class: Class::Warrior, attributes: [24240, 8490, 8460, 20030, 5130], hp: 42163152, xp: 300000000 },
            Monster { level: 430, class: Class::Mage, attributes: [10150, 10180, 29080, 22030, 6150], hp: 18989860, xp: 300000000 },
            Monster { level: 440, class: Class::Warrior, attributes: [34890, 12210, 12180, 24230, 7380], hp: 53427152, xp: 300000000 },
            Monster { level: 450, class: Class::Mage, attributes: [14610, 14650, 41860, 26650, 8850], hp: 24038300, xp: 300000000 },
            Monster { level: 460, class: Class::Warrior, attributes: [50230, 17580, 17530, 29310, 10620], hp: 67559552, xp: 300000000 },
            Monster { level: 470, class: Class::Warrior, attributes: [60270, 21090, 21030, 32240, 12740], hp: 75925200, xp: 300000000 },
            Monster { level: 480, class: Class::Warrior, attributes: [72320, 25300, 25230, 35460, 15280], hp: 85281296, xp: 300000000 },
            Monster { level: 490, class: Class::Scout, attributes: [30360, 86780, 30270, 39000, 18330], hp: 76596000, xp: 300000000 },
            Monster { level: 500, class: Class::Warrior, attributes: [0, 0, 0, 0, 0], hp: 0, xp: 300000000 },
        ],
        LightDungeon::Easteros => vec![
            Monster { level: 310, class: Class::Warrior, attributes: [6040, 2120, 2095, 5760, 1410], hp: 8956800, xp: 90125436 },
            Monster { level: 320, class: Class::Warrior, attributes: [6240, 2190, 2165, 5960, 1450], hp: 9565800, xp: 105514978 },
            Monster { level: 330, class: Class::Mage, attributes: [3200, 3240, 13040, 12160, 4640], hp: 8049920, xp: 123067419 },
            Monster { level: 340, class: Class::Warrior, attributes: [13280, 4660, 4610, 12720, 3060], hp: 21687600, xp: 143018630 },
            Monster { level: 350, class: Class::Warrior, attributes: [13680, 4800, 4750, 13120, 3140], hp: 23025600, xp: 165631756 },
            Monster { level: 360, class: Class::Mage, attributes: [5910, 5970, 24000, 22680, 8514], hp: 16374960, xp: 191202824 },
            Monster { level: 370, class: Class::Scout, attributes: [6540, 26040, 6510, 25200, 9327], hp: 37396800, xp: 220033230 },
            Monster { level: 380, class: Class::Warrior, attributes: [32070, 11244, 11166, 31230, 7020], hp: 59493152, xp: 252458197 },
            Monster { level: 390, class: Class::Warrior, attributes: [35000, 11800, 12000, 40040, 8000], hp: 95873200, xp: 288853442 },
            Monster { level: 400, class: Class::Mage, attributes: [8500, 8500, 32000, 30000, 12000], hp: 52867840, xp: 300000000 },
            Monster { level: 410, class: Class::Scout, attributes: [8720, 34720, 8680, 33600, 12436], hp: 55238400, xp: 300000000 },
            Monster { level: 420, class: Class::Mage, attributes: [11100, 11200, 45000, 42800, 15940], hp: 36037600, xp: 300000000 },
            Monster { level: 430, class: Class::Warrior, attributes: [45800, 16060, 15935, 44400, 10170], hp: 95682000, xp: 300000000 },
            Monster { level: 440, class: Class::Scout, attributes: [11800, 47000, 11750, 45600, 16805], hp: 80438400, xp: 300000000 },
            Monster { level: 450, class: Class::Warrior, attributes: [57840, 20280, 20130, 56160, 12780], hp: 126640800, xp: 300000000 },
            Monster { level: 460, class: Class::Warrior, attributes: [59280, 20784, 20634, 57600, 13068], hp: 132768000, xp: 300000000 },
            Monster { level: 470, class: Class::Mage, attributes: [15120, 15240, 61200, 58560, 21648], hp: 55163520, xp: 300000000 },
            Monster { level: 480, class: Class::Mage, attributes: [18060, 18200, 73080, 70000, 25844], hp: 67340000, xp: 300000000 },
            Monster { level: 490, class: Class::Warrior, attributes: [74200, 26012, 25837, 72240, 16254], hp: 177349200, xp: 300000000 },
            Monster { level: 500, class: Class::Scout, attributes: [19040, 75880, 18970, 73920, 27055], hp: 148135680, xp: 300000000 },
        ],
        LightDungeon::Tower => vec![
            Monster { level: 200, class: Class::Warrior, attributes: [4194, 1697, 1665, 15940, 2589], hp: 16019700, xp: 267461 },
            Monster { level: 202, class: Class::Mage, attributes: [1714, 1678, 4242, 16140, 2622], hp: 6552840, xp: 279582 },
            Monster { level: 204, class: Class::Scout, attributes: [1730, 4292, 1695, 16328, 2654], hp: 13388960, xp: 292142 },
            Monster { level: 206, class: Class::Warrior, attributes: [4340, 1746, 1715, 16512, 2690], hp: 17089920, xp: 305197 },
            Monster { level: 208, class: Class::Warrior, attributes: [4385, 1763, 1733, 16712, 2726], hp: 17464040, xp: 318717 },
            Monster { level: 210, class: Class::Mage, attributes: [1782, 1747, 4434, 16896, 2757], hp: 7130112, xp: 332714 },
            Monster { level: 212, class: Class::Warrior, attributes: [4482, 1794, 1766, 17100, 2790], hp: 18211500, xp: 347250 },
            Monster { level: 214, class: Class::Mage, attributes: [1813, 1787, 4529, 17284, 2822], hp: 7432120, xp: 362294 },
            Monster { level: 216, class: Class::Mage, attributes: [1828, 1800, 4578, 17484, 2858], hp: 7588056, xp: 377859 },
            Monster { level: 218, class: Class::Warrior, attributes: [4627, 1847, 1818, 17680, 2891], hp: 19359600, xp: 394011 },
            Monster { level: 220, class: Class::Mage, attributes: [1861, 1835, 4674, 17860, 2927], hp: 7894120, xp: 410715 },
            Monster { level: 222, class: Class::Mage, attributes: [1878, 1855, 4723, 18064, 2957], hp: 8056544, xp: 427985 },
            Monster { level: 224, class: Class::Warrior, attributes: [4771, 1898, 1869, 18244, 2991], hp: 20524500, xp: 445894 },
            Monster { level: 226, class: Class::Warrior, attributes: [4820, 1909, 1887, 18440, 3027], hp: 20929400, xp: 464404 },
            Monster { level: 228, class: Class::Warrior, attributes: [4870, 1928, 1907, 18620, 3060], hp: 21319900, xp: 483529 },
            Monster { level: 230, class: Class::Mage, attributes: [1943, 1921, 4914, 18824, 3094], hp: 8696688, xp: 503347 },
            Monster { level: 232, class: Class::Warrior, attributes: [4964, 1962, 1940, 19020, 3126], hp: 22158300, xp: 523816 },
            Monster { level: 234, class: Class::Scout, attributes: [1977, 5012, 1957, 19204, 3160], hp: 18051760, xp: 544954 },
            Monster { level: 236, class: Class::Warrior, attributes: [5059, 1993, 1975, 19392, 3198], hp: 22979520, xp: 566842 },
            Monster { level: 238, class: Class::Scout, attributes: [2009, 5109, 1991, 19584, 3230], hp: 18722304, xp: 589435 },
            Monster { level: 240, class: Class::Warrior, attributes: [5157, 2024, 2009, 19780, 3262], hp: 23834900, xp: 612753 },
            Monster { level: 242, class: Class::Warrior, attributes: [5206, 2043, 2028, 19960, 3295], hp: 24251400, xp: 636884 },
            Monster { level: 244, class: Class::Warrior, attributes: [5252, 2058, 2042, 20160, 3330], hp: 24696000, xp: 661779 },
            Monster { level: 246, class: Class::Warrior, attributes: [5302, 2077, 2061, 20360, 3362], hp: 25144600, xp: 687457 },
            Monster { level: 248, class: Class::Mage, attributes: [2090, 2078, 5348, 20544, 3398], hp: 10230912, xp: 714012 },
            Monster { level: 250, class: Class::Scout, attributes: [2109, 5398, 2098, 20728, 3430], hp: 20810912, xp: 741394 },
            Monster { level: 252, class: Class::Scout, attributes: [2139, 5448, 2128, 20944, 3477], hp: 21195328, xp: 769623 },
            Monster { level: 254, class: Class::Warrior, attributes: [5498, 2173, 2162, 21160, 3522], hp: 26979000, xp: 798800 },
            Monster { level: 256, class: Class::Warrior, attributes: [5549, 2207, 2198, 21356, 3567], hp: 27442460, xp: 828869 },
            Monster { level: 258, class: Class::Warrior, attributes: [5596, 2241, 2228, 21572, 3613], hp: 27935740, xp: 859851 },
            Monster { level: 260, class: Class::Warrior, attributes: [5646, 2275, 2263, 21792, 3657], hp: 28438560, xp: 891854 },
            Monster { level: 262, class: Class::Mage, attributes: [2306, 2296, 5695, 21992, 3705], hp: 11567792, xp: 924818 },
            Monster { level: 264, class: Class::Warrior, attributes: [5744, 2340, 2331, 22204, 3751], hp: 29420300, xp: 958767 },
            Monster { level: 266, class: Class::Warrior, attributes: [5796, 2377, 2362, 22412, 3794], hp: 29920020, xp: 993815 },
            Monster { level: 268, class: Class::Warrior, attributes: [5846, 2405, 2396, 22628, 3840], hp: 30434660, xp: 1029897 },
            Monster { level: 270, class: Class::Scout, attributes: [2442, 5894, 2430, 22828, 3885], hp: 24745552, xp: 1067041 },
            Monster { level: 272, class: Class::Scout, attributes: [2472, 5945, 2465, 23044, 3934], hp: 25164048, xp: 1105366 },
            Monster { level: 274, class: Class::Warrior, attributes: [5995, 2507, 2498, 23264, 3975], hp: 31988000, xp: 1144805 },
            Monster { level: 276, class: Class::Warrior, attributes: [6046, 2538, 2531, 23452, 4022], hp: 32481020, xp: 1185383 },
            Monster { level: 278, class: Class::Warrior, attributes: [6092, 2572, 2566, 23668, 4069], hp: 33016860, xp: 1227233 },
            Monster { level: 280, class: Class::Mage, attributes: [2609, 2597, 6144, 23872, 4113], hp: 13416064, xp: 1270279 },
            Monster { level: 282, class: Class::Mage, attributes: [2638, 2632, 6195, 24088, 4161], hp: 13633808, xp: 1314549 },
            Monster { level: 284, class: Class::Warrior, attributes: [6245, 2671, 2668, 24292, 4203], hp: 34616100, xp: 1360180 },
            Monster { level: 286, class: Class::Scout, attributes: [2704, 6293, 2700, 24508, 4252], hp: 28135184, xp: 1407095 },
            Monster { level: 288, class: Class::Scout, attributes: [2738, 6346, 2731, 24716, 4294], hp: 28571696, xp: 1455324 },
            Monster { level: 290, class: Class::Warrior, attributes: [6396, 2771, 2765, 6231, 4340], hp: 36264420, xp: 1505015 },
            Monster { level: 292, class: Class::Scout, attributes: [2806, 6442, 2802, 25132, 4386], hp: 29454704, xp: 1556080 },
            Monster { level: 294, class: Class::Mage, attributes: [2841, 2832, 6492, 25344, 4431], hp: 14952960, xp: 1608553 },
            Monster { level: 296, class: Class::Mage, attributes: [2870, 2867, 6543, 25556, 4479], hp: 15180264, xp: 1662591 },
            Monster { level: 298, class: Class::Warrior, attributes: [6593, 2905, 2902, 25764, 4523], hp: 38517180, xp: 1718104 },
            Monster { level: 300, class: Class::Warrior, attributes: [6640, 2937, 2932, 25976, 4569], hp: 39093880, xp: 1775123 },
            Monster { level: 302, class: Class::Scout, attributes: [2974, 6711, 2971, 26224, 4611], hp: 31783488, xp: 1833815 },
            Monster { level: 304, class: Class::Warrior, attributes: [6776, 3010, 3013, 26464, 4654], hp: 40357600, xp: 1894085 },
            Monster { level: 306, class: Class::Mage, attributes: [3048, 3053, 6840, 26728, 4697], hp: 16410992, xp: 1955969 },
            Monster { level: 308, class: Class::Warrior, attributes: [6906, 3089, 3091, 26964, 4741], hp: 41659380, xp: 2019640 },
            Monster { level: 310, class: Class::Warrior, attributes: [6973, 3121, 3132, 27220, 4784], hp: 42327100, xp: 2084998 },
            Monster { level: 312, class: Class::Warrior, attributes: [7040, 3160, 3173, 27456, 4828], hp: 42968640, xp: 2152079 },
            Monster { level: 314, class: Class::Scout, attributes: [3196, 7105, 3212, 27708, 4875], hp: 34912080, xp: 2221072 },
            Monster { level: 316, class: Class::Mage, attributes: [3236, 3250, 7173, 27948, 4915], hp: 17719032, xp: 2291866 },
            Monster { level: 318, class: Class::Warrior, attributes: [7240, 3270, 3291, 28196, 4958], hp: 44972620, xp: 2364500 },
            Monster { level: 320, class: Class::Warrior, attributes: [7303, 3309, 3331, 28448, 5005], hp: 45659040, xp: 2439169 },
            Monster { level: 322, class: Class::Warrior, attributes: [7370, 3348, 3368, 28692, 5043], hp: 46337580, xp: 2515761 },
            Monster { level: 324, class: Class::Warrior, attributes: [7436, 3382, 3409, 7236, 5088], hp: 47034000, xp: 2594317 },
            Monster { level: 326, class: Class::Scout, attributes: [3422, 7501, 3448, 29188, 5132], hp: 38177904, xp: 2675047 },
            Monster { level: 328, class: Class::Warrior, attributes: [7567, 3458, 3487, 29436, 5177], hp: 48422220, xp: 2757826 },
            Monster { level: 330, class: Class::Warrior, attributes: [7634, 3495, 3528, 29696, 5217], hp: 49146880, xp: 2842697 },
            Monster { level: 332, class: Class::Scout, attributes: [3532, 7700, 3567, 29936, 5262], hp: 39874752, xp: 2929882 },
            Monster { level: 334, class: Class::Mage, attributes: [3568, 3609, 7768, 30188, 5305], hp: 20225960, xp: 3019251 },
            Monster { level: 336, class: Class::Warrior, attributes: [7833, 3609, 3645, 30424, 5347], hp: 51264440, xp: 3110849 },
            Monster { level: 338, class: Class::Warrior, attributes: [7900, 3641, 3687, 30676, 5392], hp: 51995820, xp: 3204909 },
            Monster { level: 340, class: Class::Warrior, attributes: [7967, 3680, 3729, 30912, 5436], hp: 52704960, xp: 3301294 },
            Monster { level: 342, class: Class::Warrior, attributes: [8031, 3717, 3764, 31168, 5480], hp: 53453120, xp: 3400051 },
            Monster { level: 344, class: Class::Mage, attributes: [3756, 3805, 8101, 31408, 5523], hp: 21671520, xp: 3501429 },
            Monster { level: 346, class: Class::Warrior, attributes: [8167, 3790, 3845, 31656, 5566], hp: 54923160, xp: 3605278 },
            Monster { level: 348, class: Class::Warrior, attributes: [8229, 3829, 3886, 31908, 5611], hp: 55679460, xp: 3711649 },
            Monster { level: 350, class: Class::Warrior, attributes: [8297, 3868, 3923, 32152, 5651], hp: 56426760, xp: 3820806 },
            Monster { level: 352, class: Class::Warrior, attributes: [8541, 3976, 4007, 33072, 5767], hp: 58372080, xp: 3932590 },
            Monster { level: 354, class: Class::Warrior, attributes: [8787, 4088, 4093, 33976, 5881], hp: 60307400, xp: 4047055 },
            Monster { level: 356, class: Class::Scout, attributes: [4199, 9029, 4175, 34896, 5997], hp: 49831488, xp: 4164472 },
            Monster { level: 358, class: Class::Warrior, attributes: [9274, 4313, 4256, 35824, 6107], hp: 64304080, xp: 4284681 },
            Monster { level: 360, class: Class::Warrior, attributes: [9996, 4642, 4556, 38556, 6534], hp: 69593584, xp: 4407738 },
            Monster { level: 362, class: Class::Warrior, attributes: [10761, 4999, 4877, 41494, 6989], hp: 75311608, xp: 4533933 },
            Monster { level: 364, class: Class::Warrior, attributes: [11583, 5380, 5215, 44629, 7466], hp: 81447928, xp: 4663087 },
            Monster { level: 366, class: Class::Warrior, attributes: [12460, 5781, 5578, 47979, 7980], hp: 88041464, xp: 4795261 },
            Monster { level: 368, class: Class::Warrior, attributes: [13397, 6214, 5957, 51532, 8525], hp: 95076544, xp: 4930763 },
            Monster { level: 370, class: Class::Mage, attributes: [6418, 6128, 13843, 53238, 8758], hp: 39502596, xp: 5069406 },
            Monster { level: 372, class: Class::Warrior, attributes: [14300, 6632, 6299, 54963, 8991], hp: 102505992, xp: 5211250 },
            Monster { level: 374, class: Class::Warrior, attributes: [14765, 6840, 6470, 56701, 9233], hp: 106314376, xp: 5356618 },
            Monster { level: 376, class: Class::Warrior, attributes: [15233, 7059, 6649, 58485, 9478], hp: 110244224, xp: 5505316 },
            Monster { level: 378, class: Class::Warrior, attributes: [15716, 7280, 6822, 60298, 9716], hp: 114264712, xp: 5657407 },
            Monster { level: 380, class: Class::Warrior, attributes: [16203, 7500, 7506, 62140, 9973], hp: 118376704, xp: 5813229 },
            Monster { level: 382, class: Class::Warrior, attributes: [16700, 7729, 7192, 16000, 10226], hp: 122561912, xp: 5972576 },
            Monster { level: 384, class: Class::Warrior, attributes: [17199, 7961, 7373, 65914, 10493], hp: 126884448, xp: 6135515 },
            Monster { level: 386, class: Class::Warrior, attributes: [17717, 8198, 7566, 67861, 10748], hp: 131311032, xp: 6302407 },
            Monster { level: 388, class: Class::Warrior, attributes: [18240, 8432, 7758, 69809, 11021], hp: 135778512, xp: 6473030 },
            Monster { level: 390, class: Class::Warrior, attributes: [18767, 8678, 7954, 71816, 11296], hp: 140400288, xp: 6647454 },
            Monster { level: 392, class: Class::Warrior, attributes: [19306, 8927, 8151, 73848, 11569], hp: 145111328, xp: 6826051 },
            Monster { level: 394, class: Class::Warrior, attributes: [19856, 9175, 8354, 75919, 11850], hp: 149940032, xp: 7008597 },
            Monster { level: 396, class: Class::Warrior, attributes: [20413, 9432, 8564, 78007, 12138], hp: 154843888, xp: 7195163 },
            Monster { level: 398, class: Class::Warrior, attributes: [20977, 9686, 8769, 80151, 12429], hp: 159901248, xp: 7386146 },
        ],
        LightDungeon::TimeHonoredSchoolofMagic => vec![
            Monster { level: 250, class: Class::Scout, attributes: [1400, 11000, 1400, 35000, 4500], hp: 62500000, xp: 31862139 },
            Monster { level: 257, class: Class::Warrior, attributes: [9722, 2404, 2426, 43730, 4764], hp: 79681528, xp: 36305620 },
            Monster { level: 265, class: Class::Scout, attributes: [1550, 11290, 1560, 44000, 4800], hp: 68425000, xp: 42016588 },
            Monster { level: 272, class: Class::Scout, attributes: [1965, 12320, 1980, 46000, 5940], hp: 73970000, xp: 47615630 },
            Monster { level: 280, class: Class::Mage, attributes: [3869, 3865, 12249, 49255, 7662], hp: 39995056, xp: 54764113 },
            Monster { level: 287, class: Class::Scout, attributes: [4465, 12440, 4430, 54100, 7960], hp: 94220000, xp: 61727510 },
            Monster { level: 295, class: Class::Scout, attributes: [3910, 12980, 3850, 54500, 7970], hp: 96325000, xp: 70595045 },
            Monster { level: 302, class: Class::Warrior, attributes: [14874, 3132, 1986, 58295, 8022], hp: 138640080, xp: 79213665 },
            Monster { level: 310, class: Class::Warrior, attributes: [14470, 5540, 5569, 70050, 10197], hp: 174284400, xp: 90125436 },
            Monster { level: 317, class: Class::Mage, attributes: [5911, 4338, 12174, 70050, 8540], hp: 71282872, xp: 100672054 },
            Monster { level: 325, class: Class::Mage, attributes: [3221, 3221, 16577, 61790, 8964], hp: 64459324, xp: 113997992 },
            Monster { level: 332, class: Class::Mage, attributes: [6128, 6057, 17028, 76695, 10905], hp: 83003160, xp: 126854805 },
            Monster { level: 340, class: Class::Mage, attributes: [5151, 5237, 18553, 79880, 12130], hp: 90152560, xp: 143018630 },
            Monster { level: 347, class: Class::Scout, attributes: [5875, 20170, 5870, 72300, 9320], hp: 168640000, xp: 158537364 },
            Monster { level: 355, class: Class::Mage, attributes: [5650, 5744, 19876, 86520, 12519], hp: 104723808, xp: 178017293 },
            Monster { level: 362, class: Class::Warrior, attributes: [19163, 9228, 9077, 96410, 13359], hp: 306222272, xp: 196694080 },
            Monster { level: 370, class: Class::Mage, attributes: [7773, 7772, 19358, 91315, 13191], hp: 116878632, xp: 220033230 },
            Monster { level: 377, class: Class::Mage, attributes: [5774, 5775, 24520, 96430, 13751], hp: 125754360, xp: 242313317 },
            Monster { level: 385, class: Class::Scout, attributes: [12400, 29300, 12600, 130350, 18640], hp: 379430016, xp: 270120546 },
            Monster { level: 400, class: Class::Mage, attributes: [8447, 8378, 30585, 126470, 18375], hp: 190324704, xp: 300000000 },
        ],
        LightDungeon::Hemorridor => vec![
            Monster { level: 200, class: Class::Warrior, attributes: [8800, 1120, 1120, 28000, 3600], hp: 28140000, xp: 11412835 },
            Monster { level: 213, class: Class::Warrior, attributes: [8069, 1995, 2014, 36296, 3954], hp: 38836720, xp: 15166093 },
            Monster { level: 228, class: Class::Mage, attributes: [1333, 1333, 9709, 37840, 4128], hp: 17330720, xp: 20723258 },
            Monster { level: 242, class: Class::Scout, attributes: [1749, 10965, 1762, 40940, 5287], hp: 39793680, xp: 27343418 },
            Monster { level: 258, class: Class::Scout, attributes: [3559, 11269, 3559, 45315, 7049], hp: 46946340, xp: 36987473 },
            Monster { level: 273, class: Class::Warrior, attributes: [11818, 4209, 4209, 51395, 7562], hp: 70411152, xp: 48459828 },
            Monster { level: 289, class: Class::Scout, attributes: [3832, 12720, 3773, 53410, 7811], hp: 61955600, xp: 63853128 },
            Monster { level: 305, class: Class::Mage, attributes: [3163, 3163, 15023, 58878, 8102], hp: 36033336, xp: 83158305 },
            Monster { level: 319, class: Class::Warrior, attributes: [14904, 5706, 5736, 72152, 10503], hp: 115443200, xp: 103875282 },
            Monster { level: 333, class: Class::Scout, attributes: [6207, 12783, 6207, 73553, 8967], hp: 98266808, xp: 128778486 },
            Monster { level: 348, class: Class::Warrior, attributes: [17737, 3446, 3446, 66115, 9591], hp: 115370672, xp: 160885033 },
            Monster { level: 362, class: Class::Warrior, attributes: [18561, 6602, 6602, 83598, 11886], hp: 151730368, xp: 196694080 },
            Monster { level: 377, class: Class::Mage, attributes: [5718, 5813, 20594, 88667, 13464], hp: 67032252, xp: 242313317 },
            Monster { level: 392, class: Class::Scout, attributes: [6639, 22792, 663, 81699, 10532], hp: 128430832, xp: 296636662 },
            Monster { level: 408, class: Class::Mage, attributes: [6497, 6606, 22857, 99498, 14397], hp: 81389360, xp: 300000000 },
            Monster { level: 424, class: Class::Warrior, attributes: [22421, 10797, 10620, 112800, 15630], hp: 239700000, xp: 300000000 },
            Monster { level: 440, class: Class::Scout, attributes: [9250, 23036, 9250, 108665, 15697], hp: 191685056, xp: 300000000 },
            Monster { level: 456, class: Class::Warrior, attributes: [29669, 6998, 6998, 116680, 16639], hp: 266613792, xp: 300000000 },
            Monster { level: 474, class: Class::Warrior, attributes: [36039, 15498, 15498, 160331, 22927], hp: 380786112, xp: 300000000 },
            Monster { level: 500, class: Class::Warrior, attributes: [38231, 10473, 10474, 158088, 22969], hp: 396010432, xp: 300000000 },
        ],
        LightDungeon::NordicGods => vec![
            Monster { level: 210, class: Class::Warrior, attributes: [8000, 2000, 2000, 36000, 4000], hp: 43560000, xp: 14222021 },
            Monster { level: 240, class: Class::Mage, attributes: [10965, 1762, 12000, 40500, 5000], hp: 55687500, xp: 26302843 },
            Monster { level: 270, class: Class::Mage, attributes: [4000, 4000, 11500, 51000, 7500], hp: 31416000, xp: 45958126 },
            Monster { level: 305, class: Class::Warrior, attributes: [15000, 3500, 3500, 58500, 8000], hp: 101351256, xp: 83158305 },
            Monster { level: 330, class: Class::Warrior, attributes: [12500, 6000, 6000, 73500, 9000], hp: 137445008, xp: 123067419 },
            Monster { level: 360, class: Class::Scout, attributes: [6500, 18500, 6500, 83500, 11500], hp: 135938000, xp: 191202824 },
            Monster { level: 390, class: Class::Warrior, attributes: [22500, 6500, 6500, 81500, 10500], hp: 143440000, xp: 288853442 },
            Monster { level: 420, class: Class::Scout, attributes: [10500, 22500, 10500, 112500, 15500], hp: 212850000, xp: 300000000 },
            Monster { level: 455, class: Class::Warrior, attributes: [29500, 7000, 7000, 115000, 16000], hp: 235290000, xp: 300000000 },
            Monster { level: 500, class: Class::Warrior, attributes: [38500, 10500, 10500, 158000, 23000], hp: 354552000, xp: 300000000 },
        ],
        LightDungeon::MountOlympus => vec![
            Monster { level: 210, class: Class::Mage, attributes: [2000, 2000, 8000, 80000, 4000], hp: 52800000, xp: 14222021 },
            Monster { level: 240, class: Class::Warrior, attributes: [12000, 4000, 4000, 100000, 5000], hp: 187500000, xp: 26302843 },
            Monster { level: 270, class: Class::Scout, attributes: [6000, 16000, 6000, 120000, 6000], hp: 201600000, xp: 45958126 },
            Monster { level: 305, class: Class::Mage, attributes: [8000, 8000, 20000, 140000, 7000], hp: 132300000, xp: 83158305 },
            Monster { level: 330, class: Class::Mage, attributes: [10000, 10000, 24000, 160000, 8000], hp: 163200000, xp: 123067419 },
            Monster { level: 360, class: Class::Warrior, attributes: [28000, 12000, 12000, 180000, 10000], hp: 499500000, xp: 191202824 },
            Monster { level: 390, class: Class::Warrior, attributes: [32000, 14000, 14000, 200000, 11000], hp: 600000000, xp: 288853442 },
            Monster { level: 420, class: Class::Scout, attributes: [16000, 36000, 16000, 220000, 12000], hp: 567600000, xp: 300000000 },
            Monster { level: 455, class: Class::Scout, attributes: [28000, 40000, 28000, 250000, 13000], hp: 697500032, xp: 300000000 },
            Monster { level: 500, class: Class::Mage, attributes: [33333, 33333, 44444, 300000, 15000], hp: 459000000, xp: 300000000 },
        ],
        LightDungeon::TavernoftheDarkDoppelgangers => vec![
            Monster { level: 410, class: Class::Mage, attributes: [7000, 7000, 20000, 18000, 4000], hp: 10000000, xp: 300000000 },
            Monster { level: 420, class: Class::Warrior, attributes: [24000, 8500, 8500, 20000, 5000], hp: 30000000, xp: 300000000 },
            Monster { level: 430, class: Class::Warrior, attributes: [29000, 10000, 10000, 22000, 6000], hp: 25000000, xp: 300000000 },
            Monster { level: 440, class: Class::Scout, attributes: [12000, 35000, 12000, 24000, 7500], hp: 35000000, xp: 300000000 },
            Monster { level: 450, class: Class::Warrior, attributes: [42000, 15000, 15000, 26000, 9000], hp: 10000000, xp: 300000000 },
            Monster { level: 460, class: Class::Mage, attributes: [18000, 18000, 50000, 29000, 11000], hp: 25000000, xp: 300000000 },
            Monster { level: 470, class: Class::Scout, attributes: [21000, 60000, 21000, 32000, 13000], hp: 35000000, xp: 300000000 },
            Monster { level: 480, class: Class::Mage, attributes: [25000, 25000, 72000, 35000, 15000], hp: 50000000, xp: 300000000 },
            Monster { level: 490, class: Class::Warrior, attributes: [86000, 30000, 30000, 39000, 19000], hp: 30000000, xp: 300000000 },
            Monster { level: 500, class: Class::Mage, attributes: [35000, 35000, 90000, 43000, 21000], hp: 50000000, xp: 300000000 },
        ],
        LightDungeon::DragonsHoard => vec![
            Monster { level: 210, class: Class::Scout, attributes: [3100, 6200, 3100, 10500, 3100], hp: 16000000, xp: 14222021 },
            Monster { level: 213, class: Class::Warrior, attributes: [6560, 3280, 3280, 12000, 3280], hp: 20500000, xp: 15166093 },
            Monster { level: 216, class: Class::Mage, attributes: [3460, 3460, 6920, 13500, 3460], hp: 0, xp: 0 },
            Monster { level: 219, class: Class::Scout, attributes: [3640, 7280, 3640, 15000, 3640], hp: 29500000, xp: 17216101 },
            Monster { level: 222, class: Class::Scout, attributes: [3820, 7640, 3820, 16500, 3820], hp: 34000000, xp: 18327374 },
            Monster { level: 225, class: Class::Scout, attributes: [4000, 8000, 4000, 18000, 4000], hp: 38500000, xp: 19491852 },
            Monster { level: 228, class: Class::Warrior, attributes: [8360, 4180, 4180, 19500, 4180], hp: 43000000, xp: 20723258 },
            Monster { level: 231, class: Class::Warrior, attributes: [8720, 4360, 4360, 21000, 4360], hp: 47500000, xp: 22012436 },
            Monster { level: 234, class: Class::Scout, attributes: [4540, 9080, 4540, 22500, 4540], hp: 52000000, xp: 23374540 },
            Monster { level: 240, class: Class::Mage, attributes: [4900, 4900, 9800, 25500, 4900], hp: 61000000, xp: 26302843 },
        ],
        LightDungeon::HouseOfHorrors => vec![
            Monster { level: 240, class: Class::Mage, attributes: [4900, 4900, 9800, 25500, 4900], hp: 61000000, xp: 26302843 },
            Monster { level: 243, class: Class::Warrior, attributes: [10160, 5080, 5080, 27000, 5080], hp: 65500000, xp: 27874231 },
            Monster { level: 246, class: Class::Warrior, attributes: [10520, 5260, 5260, 28500, 5260], hp: 70000000, xp: 29531221 },
            Monster { level: 249, class: Class::Warrior, attributes: [10880, 5440, 5440, 30000, 5440], hp: 74500000, xp: 31261572 },
            Monster { level: 252, class: Class::Scout, attributes: [5620, 11240, 5620, 31500, 5620], hp: 79000000, xp: 33084028 },
            Monster { level: 255, class: Class::Mage, attributes: [5800, 5800, 11600, 33000, 5800], hp: 83500000, xp: 34985806 },
            Monster { level: 258, class: Class::Scout, attributes: [5980, 11960, 5980, 34500, 5980], hp: 88000000, xp: 36987473 },
            Monster { level: 261, class: Class::Mage, attributes: [6160, 6160, 12320, 36000, 6160], hp: 92500000, xp: 39074626 },
            Monster { level: 264, class: Class::Mage, attributes: [6340, 6340, 12680, 37500, 6340], hp: 97000000, xp: 41269055 },
            Monster { level: 270, class: Class::Scout, attributes: [6700, 13400, 6700, 40500, 6700], hp: 106000000, xp: 45958126 },
        ],
        LightDungeon::ThirdLeagueOfSuperheroes => vec![
            Monster { level: 280, class: Class::Mage, attributes: [7300, 7300, 14600, 45500, 7300], hp: 121000000, xp: 54764113 },
            Monster { level: 283, class: Class::Warrior, attributes: [14960, 7480, 7480, 47000, 7480], hp: 125500000, xp: 57660160 },
            Monster { level: 286, class: Class::Scout, attributes: [7660, 15320, 7660, 48500, 7660], hp: 130000000, xp: 60696773 },
            Monster { level: 289, class: Class::Warrior, attributes: [15680, 7840, 7840, 50000, 7840], hp: 134500000, xp: 63853128 },
            Monster { level: 292, class: Class::Scout, attributes: [8020, 16040, 8020, 51500, 8020], hp: 139000000, xp: 67159972 },
            Monster { level: 295, class: Class::Warrior, attributes: [16400, 8200, 8200, 53000, 8200], hp: 143500000, xp: 70595045 },
            Monster { level: 298, class: Class::Scout, attributes: [8380, 16760, 8380, 54500, 8380], hp: 148000000, xp: 74191870 },
            Monster { level: 301, class: Class::Mage, attributes: [8560, 8560, 17120, 56000, 8560], hp: 152500000, xp: 77926126 },
            Monster { level: 304, class: Class::Mage, attributes: [8740, 8740, 17480, 57500, 8740], hp: 157000000, xp: 81832831 },
            Monster { level: 310, class: Class::Scout, attributes: [9100, 18200, 9100, 60500, 9100], hp: 166000000, xp: 90125436 },
        ],
        LightDungeon::DojoOfChildhoodHeroes => vec![
            Monster { level: 313, class: Class::Warrior, attributes: [18560, 9280, 9280, 62000, 9280], hp: 170500000, xp: 94521325 },
            Monster { level: 316, class: Class::Warrior, attributes: [18920, 9460, 9460, 63500, 9460], hp: 175000000, xp: 99114456 },
            Monster { level: 319, class: Class::Mage, attributes: [9640, 9640, 19280, 65000, 9640], hp: 179500000, xp: 103875282 },
            Monster { level: 322, class: Class::Warrior, attributes: [19640, 9820, 9820, 66500, 9820], hp: 184000000, xp: 108847145 },
            Monster { level: 325, class: Class::Mage, attributes: [10000, 10000, 20000, 68000, 10000], hp: 188500000, xp: 113997992 },
            Monster { level: 328, class: Class::Scout, attributes: [10180, 20360, 10180, 69500, 10180], hp: 193000000, xp: 119373368 },
            Monster { level: 331, class: Class::Mage, attributes: [10360, 10360, 20720, 71000, 10360], hp: 197500000, xp: 124939452 },
            Monster { level: 334, class: Class::Mage, attributes: [10540, 10540, 21080, 72500, 10540], hp: 202000000, xp: 130745487 },
            Monster { level: 337, class: Class::Warrior, attributes: [21440, 10720, 10720, 74000, 10720], hp: 206500000, xp: 136754704 },
            Monster { level: 340, class: Class::Mage, attributes: [10900, 10900, 21800, 75500, 10900], hp: 211000000, xp: 143018630 },
        ],
        LightDungeon::MonsterGrotto => vec![
            Monster { level: 480, class: Class::Warrior, attributes: [66000, 35000, 35000, 174000, 35000], hp: 540000000, xp: 300000000 },
            Monster { level: 483, class: Class::Mage, attributes: [35750, 35750, 67350, 176400, 35750], hp: 549000000, xp: 300000000 },
            Monster { level: 486, class: Class::Scout, attributes: [36500, 68700, 36500, 178800, 36500], hp: 558000000, xp: 300000000 },
            Monster { level: 489, class: Class::Warrior, attributes: [70050, 37250, 37250, 181200, 37250], hp: 567000000, xp: 300000000 },
            Monster { level: 492, class: Class::Mage, attributes: [38000, 38000, 71400, 183600, 38000], hp: 576000000, xp: 300000000 },
            Monster { level: 495, class: Class::Warrior, attributes: [72750, 38750, 38750, 186000, 38750], hp: 585000000, xp: 300000000 },
            Monster { level: 498, class: Class::Scout, attributes: [39500, 74100, 39500, 188400, 39500], hp: 594000000, xp: 300000000 },
            Monster { level: 501, class: Class::Scout, attributes: [40250, 80500, 40250, 190800, 40250], hp: 603000000, xp: 300000000 },
            Monster { level: 504, class: Class::Warrior, attributes: [82000, 41000, 41000, 193200, 41000], hp: 612000000, xp: 300000000 },
            Monster { level: 510, class: Class::Warrior, attributes: [85000, 42500, 42500, 198000, 42500], hp: 630000000, xp: 300000000 },
        ],
        LightDungeon::CityOfIntrigues => Vec::new(),
        LightDungeon::SchoolOfMagicExpress => Vec::new(),
        LightDungeon::AshMountain => Vec::new(),
        LightDungeon::PlayaGamesHQ => Vec::new(),
        LightDungeon::TrainingCamp => Vec::new(),
        LightDungeon::Sandstorm => Vec::new(),
    }
}

} // verus!
