use vstd::prelude::*;
use vstd::string::*;

verus! {

/// Directory under which all content files live.
pub const ROOT: &'static str = "../content";

/// A content table that does not belong to a packet.
#[derive(Clone, Copy, Debug, PartialEq, Eq, Structural)]
pub enum GeneralContent {
    SuspectNotes,
    Penalties,
    Packets,
    HumanRoleCardTemplate,
    ViolentRobotRoleCardTemplate,
    PatientRobotRoleCardTemplate,
    PrimaryPromptCardTemplate,
    SecondaryPromptCardTemplate,
}

/// A content table of one packet.
#[derive(Clone, Copy, Debug, PartialEq, Eq, Structural)]
pub enum PacketContent {
    Info,
    PatientRobots,
    ViolentRobots,
    PrimaryPrompts,
    SecondaryPrompts,
}

/// Where a general table lives, relative to its language directory.
pub open spec fn general_content_file(c: GeneralContent) -> Seq<char> {
    match c {
        GeneralContent::SuspectNotes => "suspect_notes.json"@,
        GeneralContent::Penalties => "penalties.json"@,
        GeneralContent::Packets => "packets/"@,
        GeneralContent::HumanRoleCardTemplate => "card_templates/human.json"@,
        GeneralContent::ViolentRobotRoleCardTemplate => "card_templates/violent_robot.json"@,
        GeneralContent::PatientRobotRoleCardTemplate => "card_templates/patient_robot.json"@,
        GeneralContent::PrimaryPromptCardTemplate => "card_templates/primary_prompt.json"@,
        GeneralContent::SecondaryPromptCardTemplate => "card_templates/secondary_prompt.json"@,
    }
}

/// Where a packet table lives, relative to its packet directory.
pub open spec fn packet_content_file(c: PacketContent) -> Seq<char> {
    match c {
        PacketContent::Info => "packet_info.json"@,
        PacketContent::PatientRobots => "patient_robots.json"@,
        PacketContent::ViolentRobots => "violent_robots.json"@,
        PacketContent::PrimaryPrompts => "primary_prompts.json"@,
        PacketContent::SecondaryPrompts => "secondary_prompts.json"@,
    }
}

/// `a/b/c`: three path segments joined by slashes.
pub open spec fn join3(a: Seq<char>, b: Seq<char>, c: Seq<char>) -> Seq<char> {
    a + seq!['/'] + b + seq!['/'] + c
}

pub open spec fn general_path(content: GeneralContent, lang: Seq<char>) -> Seq<char> {
    join3(ROOT@, lang, general_content_file(content))
}

pub open spec fn packet_path(packet_name: Seq<char>, content: PacketContent, lang: Seq<char>) -> Seq<
    char,
> {
    join3(general_path(GeneralContent::Packets, lang), packet_name, packet_content_file(content))
}

impl GeneralContent {
    pub fn to_string(self) -> (r: String)
        ensures
            r@ == general_content_file(self),
    {
        match self {
            GeneralContent::SuspectNotes => "suspect_notes.json".to_owned(),
            GeneralContent::Penalties => "penalties.json".to_owned(),
            GeneralContent::Packets => "packets/".to_owned(),
            GeneralContent::HumanRoleCardTemplate => "card_templates/human.json".to_owned(),
            GeneralContent::ViolentRobotRoleCardTemplate =>
                "card_templates/violent_robot.json".to_owned(),
            GeneralContent::PatientRobotRoleCardTemplate =>
                "card_templates/patient_robot.json".to_owned(),
            GeneralContent::PrimaryPromptCardTemplate =>
                "card_templates/primary_prompt.json".to_owned(),
            GeneralContent::SecondaryPromptCardTemplate =>
                "card_templates/secondary_prompt.json".to_owned(),
        }
    }
}

impl PacketContent {
    pub fn to_string(self) -> (r: String)
        ensures
            r@ == packet_content_file(self),
    {
        match self {
            PacketContent::Info => "packet_info.json".to_owned(),
            PacketContent::PatientRobots => "patient_robots.json".to_owned(),
            PacketContent::ViolentRobots => "violent_robots.json".to_owned(),
            PacketContent::PrimaryPrompts => "primary_prompts.json".to_owned(),
            PacketContent::SecondaryPrompts => "secondary_prompts.json".to_owned(),
        }
    }
}

fn join_paths(a: &str, b: &str, c: &str) -> (r: String)
    ensures
        r@ == join3(a@, b@, c@),
{
    proof {
        reveal_strlit("/");
    }
    let mut path = a.to_owned();
    path.append("/");
    path.append(b);
    path.append("/");
    path.append(c);
    path
}

/// The file of a general table in language `lang`.
pub fn build_path(content: GeneralContent, lang: &str) -> (r: String)
    ensures
        r@ == general_path(content, lang@),
{
    let file = content.to_string();
    join_paths(ROOT, lang, file.as_str())
}

/// The file of a table of packet `packet_name` in language `lang`.
pub fn build_packet_content_path(packet_name: String, content: PacketContent, lang: &str) -> (r:
    String)
    ensures
        r@ == packet_path(packet_name@, content, lang@),
{
    let dir = build_path(GeneralContent::Packets, lang);
    let file = content.to_string();
    join_paths(dir.as_str(), packet_name.as_str(), file.as_str())
}

// Content models

pub struct Packet {
    pub name: String,
    pub title: String,
}

pub struct SuspectNote {
    pub title: String,
}

pub struct Penalty {
    pub title: String,
}

pub struct HumanRoleCardTemplate {
    pub title: String,
    pub center_text: String,
    pub bottom_text: String,
    pub footnote: String,
}

pub struct ViolentRobot {
    pub obsession: String,
    pub objective1: String,
    pub objective2: String,
}

pub struct PatientRobot {
    pub vulnerability: String,
    pub vulnerability_description: String,
}

pub struct ViolentRobotRoleCardTemplate {
    pub title: String,
    pub subtitle: String,
    pub extra_objective: String,
    pub footnote: String,
}

pub struct PatientRobotRoleCardTemplate {
    pub title: String,
    pub subtitle: String,
    pub footnote: String,
}

pub struct Prompt {
    pub prompt: String,
    pub example_question1: String,
    pub example_question2: String,
}

pub struct PromptCardTemplate {
    pub is_primary: bool,
    pub is_secondary: bool,
    pub title: String,
    pub pre_prompt: String,
    pub post_prompt: String,
    pub questions_label: String,
    pub pre_prompt_extra: String,
}

/// The tables of one packet, under the packet's directory name.
pub struct PacketTables {
    pub name: String,
    pub violent_robots: Vec<(ViolentRobot, ViolentRobotRoleCardTemplate)>,
    pub patient_robots: Vec<PatientRobot>,
    pub primary_prompts: Vec<Prompt>,
    pub secondary_prompts: Vec<Prompt>,
}

/// All content tables, loaded once and read-only afterwards.
pub struct ContentLibrary {
    pub suspect_notes: Vec<SuspectNote>,
    pub penalties: Vec<Penalty>,
    pub packets: Vec<Packet>,
    pub packet_tables: Vec<PacketTables>,
    pub human_role_card_template: HumanRoleCardTemplate,
    pub violent_robot_role_card_template: ViolentRobotRoleCardTemplate,
    pub patient_robot_role_card_template: PatientRobotRoleCardTemplate,
    pub primary_prompt_card_template: PromptCardTemplate,
    pub secondary_prompt_card_template: PromptCardTemplate,
}

/// `i` is the first position whose packet is named `name`.
pub open spec fn first_packet_named(tables: Seq<PacketTables>, name: Seq<char>, i: int) -> bool {
    &&& 0 <= i < tables.len()
    &&& tables[i].name@ == name
    &&& forall|j: int| 0 <= j < i ==> tables[j].name@ != name
}

pub open spec fn has_packet(tables: Seq<PacketTables>, name: Seq<char>) -> bool {
    exists|i: int| 0 <= i < tables.len() && tables[i].name@ == name
}

impl ContentLibrary {
    /// The first packet named `packet_name`, if any.
    fn find_packet(&self, packet_name: &String) -> (r: Option<usize>)
        ensures
            r is None <==> !has_packet(self.packet_tables@, packet_name@),
            r matches Some(i) ==> first_packet_named(self.packet_tables@, packet_name@, i as int),
    {
        let mut i: usize = 0;
        while i < self.packet_tables.len()
            invariant
                i <= self.packet_tables@.len(),
                forall|j: int| 0 <= j < i ==> self.packet_tables@[j].name@ != packet_name@,
            decreases self.packet_tables@.len() - i,
        {
            if self.packet_tables[i].name == *packet_name {
                return Some(i);
            }
            i = i + 1;
        }
        None
    }
}

/// The violent robots of packet `packet_name`.
pub fn violent_robots(library: &ContentLibrary, packet_name: String) -> (r: Option<
    &Vec<(ViolentRobot, ViolentRobotRoleCardTemplate)>,
>)
    ensures
        r is None <==> !has_packet(library.packet_tables@, packet_name@),
        r matches Some(v) ==> exists|i: int|
            first_packet_named(library.packet_tables@, packet_name@, i) && *v
                == library.packet_tables@[i].violent_robots,
{
    match library.find_packet(&packet_name) {
        Some(i) => Some(&library.packet_tables[i].violent_robots),
        None => None,
    }
}

/// The patient robots of packet `packet_name`.
pub fn patient_robots(library: &ContentLibrary, packet_name: String) -> (r: Option<
    &Vec<PatientRobot>,
>)
    ensures
        r is None <==> !has_packet(library.packet_tables@, packet_name@),
        r matches Some(v) ==> exists|i: int|
            first_packet_named(library.packet_tables@, packet_name@, i) && *v
                == library.packet_tables@[i].patient_robots,
{
    match library.find_packet(&packet_name) {
        Some(i) => Some(&library.packet_tables[i].patient_robots),
        None => None,
    }
}

/// The primary prompts of packet `packet_name`.
pub fn primary_prompts(library: &ContentLibrary, packet_name: String) -> (r: Option<&Vec<Prompt>>)
    ensures
        r is None <==> !has_packet(library.packet_tables@, packet_name@),
        r matches Some(v) ==> exists|i: int|
            first_packet_named(library.packet_tables@, packet_name@, i) && *v
                == library.packet_tables@[i].primary_prompts,
{
    match library.find_packet(&packet_name) {
        Some(i) => Some(&library.packet_tables[i].primary_prompts),
        None => None,
    }
}

/// The secondary prompts of packet `packet_name`.
pub fn secondary_prompts(library: &ContentLibrary, packet_name: String) -> (r: Option<
    &Vec<Prompt>,
>)
    ensures
        r is None <==> !has_packet(library.packet_tables@, packet_name@),
        r matches Some(v) ==> exists|i: int|
            first_packet_named(library.packet_tables@, packet_name@, i) && *v
                == library.packet_tables@[i].secondary_prompts,
{
    match library.find_packet(&packet_name) {
        Some(i) => Some(&library.packet_tables[i].secondary_prompts),
        None => None,
    }
}

} // verus!
