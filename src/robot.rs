use vstd::prelude::*;
use crate::api::{Price, ResultItem};

verus! {

/// What the card of one listing is drawn from.
pub struct RobotProperties {
    pub robot: ResultItem,
}

/// The card of one listing. Whether it shows prices is a setting of its own;
/// a card made by `create` does not.
pub struct RobotComponent {
    pub show_prices: bool,
}

/// Everything a card shows, ready to draw.
pub struct RobotCard {
    pub id: String,
    pub name: String,
    pub creator_id: String,
    pub creator_name: String,
    pub image: String,
    /// Text that stands for the image: the robot's name and its creator's.
    pub alt: String,
    pub base_cpu: usize,
    pub weapon_cpu: usize,
    pub cosmetic_cpu: usize,
    pub cluster_count: usize,
    /// The prices to show: all of them, or none when prices are hidden.
    pub prices: Vec<Price>,
}

/// The text that stands for a robot's image.
pub open spec fn alt_text(name: Seq<char>, creator: Seq<char>) -> Seq<char> {
    name + " by "@ + creator
}

impl RobotComponent {
    /// A card with prices hidden.
    pub fn create() -> (r: Self)
        ensures
            !r.show_prices,
    {
        RobotComponent { show_prices: false }
    }

    /// The card of a listing: a pure function of the listing and the price
    /// setting.
    pub fn view(&self, props: &RobotProperties) -> (r: RobotCard)
        ensures
            r.id@ == props.robot.robot.id@,
            r.name@ == props.robot.robot.name@,
            r.creator_id@ == props.robot.robot.creatorId@,
            r.creator_name@ == props.robot.robot.creatorName@,
            r.image@ == props.robot.robot.image@,
            r.alt@ == alt_text(props.robot.robot.name@, props.robot.robot.creatorName@),
            r.base_cpu == props.robot.robot.baseCpu,
            r.weapon_cpu == props.robot.robot.weaponCpu,
            r.cosmetic_cpu == props.robot.robot.cosmeticCpu,
            r.cluster_count == props.robot.robot.clusterCount,
            self.show_prices ==> r.prices@ == props.robot.prices@,
            !self.show_prices ==> r.prices@.len() == 0,
    {
        let robot = &props.robot.robot;
        let mut alt = robot.name.clone();
        alt.append(" by ");
        alt.append(robot.creatorName.as_str());
        let mut prices: Vec<Price> = Vec::new();
        if self.show_prices {
            let all = &props.robot.prices;
            let mut i: usize = 0;
            while i < all.len()
                invariant
                    i <= all@.len(),
                    prices@ == all@.take(i as int),
                decreases all@.len() - i,
            {
                prices.push(all[i]);
                assert(all@.take(i + 1) =~= all@.take(i as int).push(all@[i as int]));
                i = i + 1;
            }
            assert(all@.take(i as int) =~= all@);
        }
        RobotCard {
            id: robot.id.clone(),
            name: robot.name.clone(),
            creator_id: robot.creatorId.clone(),
            creator_name: robot.creatorName.clone(),
            image: robot.image.clone(),
            alt,
            base_cpu: robot.baseCpu,
            weapon_cpu: robot.weaponCpu,
            cosmetic_cpu: robot.cosmeticCpu,
            cluster_count: robot.clusterCount,
            prices,
        }
    }
}

} // verus!
