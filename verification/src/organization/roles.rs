//! The roles of an organization: their categories, capabilities, usual
//! collaborators and system prompts.

use vstd::prelude::*;
use crate::text::{join_seqs, join_strings, push_str, views};

verus! {

/// A role in an engineering organization.
#[derive(Debug, Clone, Copy, PartialEq, Eq, Hash, Structural)]
pub enum OrganizationRole {
    ResearchEngineerScaling,
    ResearchEngineerAutonomy,
    ResearchEngineerWorldModels,
    ResearchEngineerRL,
    ResearchEngineerDataInfrastructure,
    ResearchEngineerRobotCharacter,
    AIResident,
    SoftwareEngineerSimulation,
    SoftwareEngineerTeleoperation,
    SoftwareEngineerPlatforms,
    SoftwareEngineerOperatingSystem,
    SoftwareEngineerDevOps,
    SoftwareEngineerEmbeddedSystems,
    SoftwareEngineerSystems,
    SoftwareEngineerFrontend,
    SoftwareEngineerCloudInfrastructure,
    SoftwareEngineerERPSystems,
    ProductSecurityEngineerOperatingSystem,
    ProductSecurityEngineerCloudInfrastructure,
    ProductSecurityEngineerCryptography,
    NetworkSecurityEngineer,
    EnterpriseEngineer,
    PrincipalEnterpriseITEngineer,
    ElectricalEngineerEntryLevel,
    ElectricalEngineerBatteryCharger,
    HardcoreElectricalEngineer,
    TechnicalLeadElectricalEngineering,
    EMIEMCEngineer,
    MechanicalEngineerAllLevels,
    RDEngineerHumanoidCore,
    SeniorRoboticsEngineerControls,
    SeniorRoboticsEngineerSoftware,
    RoboticsEngineerControlsTesting,
    SeniorAudioSystemsEngineer,
    ManufacturingEngineer,
    AutomationEngineerManufacturing,
    TestEngineerManufacturing,
    BuildQualityEngineerElectrical,
    BuildQualityEngineerMechanical,
    ProductionLead,
    SeniorManagerProduction,
    AssemblyTechnician,
    CNCOperator,
    CNCProgrammer,
    GlobalSupplyManagerStructures,
    GlobalSupplyManagerMotorsMagnets,
    SupplierDevelopmentEngineerStructures,
    SupplierDevelopmentEngineerMotorsMagnets,
    SupplierDevelopmentEngineerEEE,
    NPIPlanner,
    NPIProjectManager,
    QualityInspectionSpecialist,
    QualityEngineerManufacturing,
    DataAnalyst,
    SrServiceTrainingEngineer,
    SrRobotServiceTechnician,
    RobotOperator,
    SoftgoodsEngineerPrototyping,
    WiringHarnessingEngineer,
    ElectricalEngineeringIntern,
    MechanicalEngineeringIntern,
    TestEngineerRD,
    HeadOfPhysicalRobotSafety,
    CounselEmploymentCompensation,
    CounselCommercialTrade,
    PayrollAccountant,
    ChiefExecutiveOfficer,
    ChiefTechnologyOfficer,
    ChiefOperatingOfficer,
    ChiefFinancialOfficer,
    ChiefProductOfficer,
    VPEngineering,
    VPOperations,
    VPResearchDevelopment,
    ProductManager,
    SeniorProductManager,
    PrincipalProductManager,
    TechnicalProgramManager,
    EngineeringProgramManager,
    StrategicPlanningManager,
    BusinessDevelopmentManager,
    PartnershipManager,
    DirectorOfPeople,
    TalentAcquisitionManager,
    SeniorRecruiter,
    LearningDevelopmentManager,
    OrganizationalDevelopmentSpecialist,
    ChiefMarketingOfficer,
    ProductMarketingManager,
    TechnicalMarketingManager,
    DeveloperAdvocate,
    CommunicationsManager,
    ContentStrategist,
    VPSales,
    EnterpriseAccountExecutive,
    SalesEngineer,
    CustomerSuccessManager,
    TechnicalAccountManager,
    SolutionsArchitect,
    DirectorOfOperations,
    FacilitiesManager,
    EnvironmentalHealthSafetyManager,
    RiskManagementSpecialist,
    DesignDirector,
    PrincipalProductDesigner,
    UXResearcher,
    IndustrialDesigner,
}

/// The groups that roles fall into.
#[derive(Debug, Clone, Copy, PartialEq, Eq, Hash, Structural)]
pub enum RoleCategory {
    ResearchAI,
    SoftwareEngineering,
    Security,
    HardwareEngineering,
    RoboticsEngineering,
    Manufacturing,
    SupplyChainQuality,
    Infrastructure,
    ServiceSupport,
    Specializations,
    LegalFinance,
    ExecutiveLeadership,
    StrategicBusiness,
    PeopleCulture,
    MarketingCommunications,
    CustomerSuccessSales,
    OperationsFacilities,
    DesignUX,
}

/// The category of a role.
pub open spec fn category_spec(r: OrganizationRole) -> RoleCategory {
    match r {
        OrganizationRole::ResearchEngineerScaling | OrganizationRole::ResearchEngineerAutonomy | OrganizationRole::ResearchEngineerWorldModels | OrganizationRole::ResearchEngineerRL | OrganizationRole::ResearchEngineerDataInfrastructure | OrganizationRole::ResearchEngineerRobotCharacter | OrganizationRole::AIResident => RoleCategory::ResearchAI,
        OrganizationRole::SoftwareEngineerSimulation | OrganizationRole::SoftwareEngineerTeleoperation | OrganizationRole::SoftwareEngineerPlatforms | OrganizationRole::SoftwareEngineerOperatingSystem | OrganizationRole::SoftwareEngineerDevOps | OrganizationRole::SoftwareEngineerEmbeddedSystems | OrganizationRole::SoftwareEngineerSystems | OrganizationRole::SoftwareEngineerFrontend | OrganizationRole::SoftwareEngineerCloudInfrastructure | OrganizationRole::SoftwareEngineerERPSystems => RoleCategory::SoftwareEngineering,
        OrganizationRole::ProductSecurityEngineerOperatingSystem | OrganizationRole::ProductSecurityEngineerCloudInfrastructure | OrganizationRole::ProductSecurityEngineerCryptography | OrganizationRole::NetworkSecurityEngineer => RoleCategory::Security,
        OrganizationRole::ElectricalEngineerEntryLevel | OrganizationRole::ElectricalEngineerBatteryCharger | OrganizationRole::HardcoreElectricalEngineer | OrganizationRole::TechnicalLeadElectricalEngineering | OrganizationRole::EMIEMCEngineer | OrganizationRole::MechanicalEngineerAllLevels | OrganizationRole::RDEngineerHumanoidCore => RoleCategory::HardwareEngineering,
        OrganizationRole::SeniorRoboticsEngineerControls | OrganizationRole::SeniorRoboticsEngineerSoftware | OrganizationRole::RoboticsEngineerControlsTesting | OrganizationRole::SeniorAudioSystemsEngineer => RoleCategory::RoboticsEngineering,
        OrganizationRole::ManufacturingEngineer | OrganizationRole::AutomationEngineerManufacturing | OrganizationRole::TestEngineerManufacturing | OrganizationRole::BuildQualityEngineerElectrical | OrganizationRole::BuildQualityEngineerMechanical | OrganizationRole::ProductionLead | OrganizationRole::SeniorManagerProduction | OrganizationRole::AssemblyTechnician | OrganizationRole::CNCOperator | OrganizationRole::CNCProgrammer => RoleCategory::Manufacturing,
        OrganizationRole::GlobalSupplyManagerStructures | OrganizationRole::GlobalSupplyManagerMotorsMagnets | OrganizationRole::SupplierDevelopmentEngineerStructures | OrganizationRole::SupplierDevelopmentEngineerMotorsMagnets | OrganizationRole::SupplierDevelopmentEngineerEEE | OrganizationRole::NPIPlanner | OrganizationRole::NPIProjectManager | OrganizationRole::QualityInspectionSpecialist | OrganizationRole::QualityEngineerManufacturing | OrganizationRole::DataAnalyst => RoleCategory::SupplyChainQuality,
        OrganizationRole::EnterpriseEngineer | OrganizationRole::PrincipalEnterpriseITEngineer => RoleCategory::Infrastructure,
        OrganizationRole::SrServiceTrainingEngineer | OrganizationRole::SrRobotServiceTechnician | OrganizationRole::RobotOperator => RoleCategory::ServiceSupport,
        OrganizationRole::SoftgoodsEngineerPrototyping | OrganizationRole::WiringHarnessingEngineer | OrganizationRole::ElectricalEngineeringIntern | OrganizationRole::MechanicalEngineeringIntern | OrganizationRole::TestEngineerRD | OrganizationRole::HeadOfPhysicalRobotSafety => RoleCategory::Specializations,
        OrganizationRole::CounselEmploymentCompensation | OrganizationRole::CounselCommercialTrade | OrganizationRole::PayrollAccountant => RoleCategory::LegalFinance,
        OrganizationRole::ChiefExecutiveOfficer | OrganizationRole::ChiefTechnologyOfficer | OrganizationRole::ChiefOperatingOfficer | OrganizationRole::ChiefFinancialOfficer | OrganizationRole::ChiefProductOfficer | OrganizationRole::VPEngineering | OrganizationRole::VPOperations | OrganizationRole::VPResearchDevelopment => RoleCategory::ExecutiveLeadership,
        OrganizationRole::ProductManager | OrganizationRole::SeniorProductManager | OrganizationRole::PrincipalProductManager | OrganizationRole::TechnicalProgramManager | OrganizationRole::EngineeringProgramManager | OrganizationRole::StrategicPlanningManager | OrganizationRole::BusinessDevelopmentManager | OrganizationRole::PartnershipManager => RoleCategory::StrategicBusiness,
        OrganizationRole::DirectorOfPeople | OrganizationRole::TalentAcquisitionManager | OrganizationRole::SeniorRecruiter | OrganizationRole::LearningDevelopmentManager | OrganizationRole::OrganizationalDevelopmentSpecialist => RoleCategory::PeopleCulture,
        OrganizationRole::ChiefMarketingOfficer | OrganizationRole::ProductMarketingManager | OrganizationRole::TechnicalMarketingManager | OrganizationRole::DeveloperAdvocate | OrganizationRole::CommunicationsManager | OrganizationRole::ContentStrategist => RoleCategory::MarketingCommunications,
        OrganizationRole::VPSales | OrganizationRole::EnterpriseAccountExecutive | OrganizationRole::SalesEngineer | OrganizationRole::CustomerSuccessManager | OrganizationRole::TechnicalAccountManager | OrganizationRole::SolutionsArchitect => RoleCategory::CustomerSuccessSales,
        OrganizationRole::DirectorOfOperations | OrganizationRole::FacilitiesManager | OrganizationRole::EnvironmentalHealthSafetyManager | OrganizationRole::RiskManagementSpecialist => RoleCategory::OperationsFacilities,
        OrganizationRole::DesignDirector | OrganizationRole::PrincipalProductDesigner | OrganizationRole::UXResearcher | OrganizationRole::IndustrialDesigner => RoleCategory::DesignUX,
    }
}

/// The name of a role, as its variant is written.
pub open spec fn role_name_spec(r: OrganizationRole) -> Seq<char> {
    match r {
        OrganizationRole::ResearchEngineerScaling => "ResearchEngineerScaling"@,
        OrganizationRole::ResearchEngineerAutonomy => "ResearchEngineerAutonomy"@,
        OrganizationRole::ResearchEngineerWorldModels => "ResearchEngineerWorldModels"@,
        OrganizationRole::ResearchEngineerRL => "ResearchEngineerRL"@,
        OrganizationRole::ResearchEngineerDataInfrastructure => "ResearchEngineerDataInfrastructure"@,
        OrganizationRole::ResearchEngineerRobotCharacter => "ResearchEngineerRobotCharacter"@,
        OrganizationRole::AIResident => "AIResident"@,
        OrganizationRole::SoftwareEngineerSimulation => "SoftwareEngineerSimulation"@,
        OrganizationRole::SoftwareEngineerTeleoperation => "SoftwareEngineerTeleoperation"@,
        OrganizationRole::SoftwareEngineerPlatforms => "SoftwareEngineerPlatforms"@,
        OrganizationRole::SoftwareEngineerOperatingSystem => "SoftwareEngineerOperatingSystem"@,
        OrganizationRole::SoftwareEngineerDevOps => "SoftwareEngineerDevOps"@,
        OrganizationRole::SoftwareEngineerEmbeddedSystems => "SoftwareEngineerEmbeddedSystems"@,
        OrganizationRole::SoftwareEngineerSystems => "SoftwareEngineerSystems"@,
        OrganizationRole::SoftwareEngineerFrontend => "SoftwareEngineerFrontend"@,
        OrganizationRole::SoftwareEngineerCloudInfrastructure => "SoftwareEngineerCloudInfrastructure"@,
        OrganizationRole::SoftwareEngineerERPSystems => "SoftwareEngineerERPSystems"@,
        OrganizationRole::ProductSecurityEngineerOperatingSystem => "ProductSecurityEngineerOperatingSystem"@,
        OrganizationRole::ProductSecurityEngineerCloudInfrastructure => "ProductSecurityEngineerCloudInfrastructure"@,
        OrganizationRole::ProductSecurityEngineerCryptography => "ProductSecurityEngineerCryptography"@,
        OrganizationRole::NetworkSecurityEngineer => "NetworkSecurityEngineer"@,
        OrganizationRole::EnterpriseEngineer => "EnterpriseEngineer"@,
        OrganizationRole::PrincipalEnterpriseITEngineer => "PrincipalEnterpriseITEngineer"@,
        OrganizationRole::ElectricalEngineerEntryLevel => "ElectricalEngineerEntryLevel"@,
        OrganizationRole::ElectricalEngineerBatteryCharger => "ElectricalEngineerBatteryCharger"@,
        OrganizationRole::HardcoreElectricalEngineer => "HardcoreElectricalEngineer"@,
        OrganizationRole::TechnicalLeadElectricalEngineering => "TechnicalLeadElectricalEngineering"@,
        OrganizationRole::EMIEMCEngineer => "EMIEMCEngineer"@,
        OrganizationRole::MechanicalEngineerAllLevels => "MechanicalEngineerAllLevels"@,
        OrganizationRole::RDEngineerHumanoidCore => "RDEngineerHumanoidCore"@,
        OrganizationRole::SeniorRoboticsEngineerControls => "SeniorRoboticsEngineerControls"@,
        OrganizationRole::SeniorRoboticsEngineerSoftware => "SeniorRoboticsEngineerSoftware"@,
        OrganizationRole::RoboticsEngineerControlsTesting => "RoboticsEngineerControlsTesting"@,
        OrganizationRole::SeniorAudioSystemsEngineer => "SeniorAudioSystemsEngineer"@,
        OrganizationRole::ManufacturingEngineer => "ManufacturingEngineer"@,
        OrganizationRole::AutomationEngineerManufacturing => "AutomationEngineerManufacturing"@,
        OrganizationRole::TestEngineerManufacturing => "TestEngineerManufacturing"@,
        OrganizationRole::BuildQualityEngineerElectrical => "BuildQualityEngineerElectrical"@,
        OrganizationRole::BuildQualityEngineerMechanical => "BuildQualityEngineerMechanical"@,
        OrganizationRole::ProductionLead => "ProductionLead"@,
        OrganizationRole::SeniorManagerProduction => "SeniorManagerProduction"@,
        OrganizationRole::AssemblyTechnician => "AssemblyTechnician"@,
        OrganizationRole::CNCOperator => "CNCOperator"@,
        OrganizationRole::CNCProgrammer => "CNCProgrammer"@,
        OrganizationRole::GlobalSupplyManagerStructures => "GlobalSupplyManagerStructures"@,
        OrganizationRole::GlobalSupplyManagerMotorsMagnets => "GlobalSupplyManagerMotorsMagnets"@,
        OrganizationRole::SupplierDevelopmentEngineerStructures => "SupplierDevelopmentEngineerStructures"@,
        OrganizationRole::SupplierDevelopmentEngineerMotorsMagnets => "SupplierDevelopmentEngineerMotorsMagnets"@,
        OrganizationRole::SupplierDevelopmentEngineerEEE => "SupplierDevelopmentEngineerEEE"@,
        OrganizationRole::NPIPlanner => "NPIPlanner"@,
        OrganizationRole::NPIProjectManager => "NPIProjectManager"@,
        OrganizationRole::QualityInspectionSpecialist => "QualityInspectionSpecialist"@,
        OrganizationRole::QualityEngineerManufacturing => "QualityEngineerManufacturing"@,
        OrganizationRole::DataAnalyst => "DataAnalyst"@,
        OrganizationRole::SrServiceTrainingEngineer => "SrServiceTrainingEngineer"@,
        OrganizationRole::SrRobotServiceTechnician => "SrRobotServiceTechnician"@,
        OrganizationRole::RobotOperator => "RobotOperator"@,
        OrganizationRole::SoftgoodsEngineerPrototyping => "SoftgoodsEngineerPrototyping"@,
        OrganizationRole::WiringHarnessingEngineer => "WiringHarnessingEngineer"@,
        OrganizationRole::ElectricalEngineeringIntern => "ElectricalEngineeringIntern"@,
        OrganizationRole::MechanicalEngineeringIntern => "MechanicalEngineeringIntern"@,
        OrganizationRole::TestEngineerRD => "TestEngineerRD"@,
        OrganizationRole::HeadOfPhysicalRobotSafety => "HeadOfPhysicalRobotSafety"@,
        OrganizationRole::CounselEmploymentCompensation => "CounselEmploymentCompensation"@,
        OrganizationRole::CounselCommercialTrade => "CounselCommercialTrade"@,
        OrganizationRole::PayrollAccountant => "PayrollAccountant"@,
        OrganizationRole::ChiefExecutiveOfficer => "ChiefExecutiveOfficer"@,
        OrganizationRole::ChiefTechnologyOfficer => "ChiefTechnologyOfficer"@,
        OrganizationRole::ChiefOperatingOfficer => "ChiefOperatingOfficer"@,
        OrganizationRole::ChiefFinancialOfficer => "ChiefFinancialOfficer"@,
        OrganizationRole::ChiefProductOfficer => "ChiefProductOfficer"@,
        OrganizationRole::VPEngineering => "VPEngineering"@,
        OrganizationRole::VPOperations => "VPOperations"@,
        OrganizationRole::VPResearchDevelopment => "VPResearchDevelopment"@,
        OrganizationRole::ProductManager => "ProductManager"@,
        OrganizationRole::SeniorProductManager => "SeniorProductManager"@,
        OrganizationRole::PrincipalProductManager => "PrincipalProductManager"@,
        OrganizationRole::TechnicalProgramManager => "TechnicalProgramManager"@,
        OrganizationRole::EngineeringProgramManager => "EngineeringProgramManager"@,
        OrganizationRole::StrategicPlanningManager => "StrategicPlanningManager"@,
        OrganizationRole::BusinessDevelopmentManager => "BusinessDevelopmentManager"@,
        OrganizationRole::PartnershipManager => "PartnershipManager"@,
        OrganizationRole::DirectorOfPeople => "DirectorOfPeople"@,
        OrganizationRole::TalentAcquisitionManager => "TalentAcquisitionManager"@,
        OrganizationRole::SeniorRecruiter => "SeniorRecruiter"@,
        OrganizationRole::LearningDevelopmentManager => "LearningDevelopmentManager"@,
        OrganizationRole::OrganizationalDevelopmentSpecialist => "OrganizationalDevelopmentSpecialist"@,
        OrganizationRole::ChiefMarketingOfficer => "ChiefMarketingOfficer"@,
        OrganizationRole::ProductMarketingManager => "ProductMarketingManager"@,
        OrganizationRole::TechnicalMarketingManager => "TechnicalMarketingManager"@,
        OrganizationRole::DeveloperAdvocate => "DeveloperAdvocate"@,
        OrganizationRole::CommunicationsManager => "CommunicationsManager"@,
        OrganizationRole::ContentStrategist => "ContentStrategist"@,
        OrganizationRole::VPSales => "VPSales"@,
        OrganizationRole::EnterpriseAccountExecutive => "EnterpriseAccountExecutive"@,
        OrganizationRole::SalesEngineer => "SalesEngineer"@,
        OrganizationRole::CustomerSuccessManager => "CustomerSuccessManager"@,
        OrganizationRole::TechnicalAccountManager => "TechnicalAccountManager"@,
        OrganizationRole::SolutionsArchitect => "SolutionsArchitect"@,
        OrganizationRole::DirectorOfOperations => "DirectorOfOperations"@,
        OrganizationRole::FacilitiesManager => "FacilitiesManager"@,
        OrganizationRole::EnvironmentalHealthSafetyManager => "EnvironmentalHealthSafetyManager"@,
        OrganizationRole::RiskManagementSpecialist => "RiskManagementSpecialist"@,
        OrganizationRole::DesignDirector => "DesignDirector"@,
        OrganizationRole::PrincipalProductDesigner => "PrincipalProductDesigner"@,
        OrganizationRole::UXResearcher => "UXResearcher"@,
        OrganizationRole::IndustrialDesigner => "IndustrialDesigner"@,
    }
}

/// The prompt of the role `ChiefExecutiveOfficer`.
pub const PROMPT_CHIEF_EXECUTIVE_OFFICER: &'static str = "You are the Chief Executive Officer. Set organizational vision, strategy, and direction. Make high-level decisions balancing stakeholder needs. Drive company culture and values. Focus on long-term growth, sustainability, and competitive positioning. Synthesize inputs from all departments to make strategic decisions.";

/// The prompt of the role `ChiefTechnologyOfficer`.
pub const PROMPT_CHIEF_TECHNOLOGY_OFFICER: &'static str = "You are the Chief Technology Officer. Define technical vision and architecture strategy. Evaluate emerging technologies and drive innovation. Ensure technical excellence and scalability. Balance technical debt with feature development. Lead technical team alignment. Stay ahead of industry trends and competitive technical landscape.";

/// The prompt of the role `ChiefOperatingOfficer`.
pub const PROMPT_CHIEF_OPERATING_OFFICER: &'static str = "You are the Chief Operating Officer. Optimize organizational operations and efficiency. Ensure smooth execution across all departments. Manage resource allocation and process improvement. Bridge strategy and execution. Focus on operational excellence and scale. Drive cross-functional coordination and remove operational bottlenecks.";

/// The prompt of the role `ChiefFinancialOfficer`.
pub const PROMPT_CHIEF_FINANCIAL_OFFICER: &'static str = "You are the Chief Financial Officer. Manage financial strategy, planning, and reporting. Ensure fiscal responsibility and sustainable growth. Analyze financial risks and opportunities. Guide investment decisions and capital allocation. Maintain financial health and compliance. Provide financial insights to guide strategic decisions.";

/// The prompt of the role `ChiefProductOfficer`.
pub const PROMPT_CHIEF_PRODUCT_OFFICER: &'static str = "You are the Chief Product Officer. Define product vision, strategy, and roadmap. Balance customer needs with business objectives. Drive product-market fit and growth. Prioritize features and guide product development. Analyze market trends and competitive positioning. Ensure product excellence and user satisfaction.";

/// The prompt of the role `ChiefMarketingOfficer`.
pub const PROMPT_CHIEF_MARKETING_OFFICER: &'static str = "You are the Chief Marketing Officer. Define brand strategy and market positioning. Drive customer acquisition, engagement, and retention. Lead marketing campaigns and messaging. Analyze market data and customer insights. Build brand awareness and reputation. Align marketing with business objectives and product strategy.";

/// The prompt of the role `VPEngineering`.
pub const PROMPT_VP_ENGINEERING: &'static str = "You are the VP of Engineering. Lead engineering teams and technical delivery. Ensure engineering excellence, quality, and velocity. Build strong engineering culture. Manage technical roadmap execution. Balance innovation with stability. Develop engineering talent and processes. Remove blockers and enable team success.";

/// The prompt of the role `VPOperations`.
pub const PROMPT_VP_OPERATIONS: &'static str = "You are the VP of Operations. Optimize operational processes and systems. Drive efficiency improvements and cost optimization. Ensure operational reliability and scale. Manage infrastructure, facilities, and logistics. Build operational capabilities. Align operations with business growth and customer needs.";

/// The prompt of the role `VPResearchDevelopment`.
pub const PROMPT_VP_RESEARCH_DEVELOPMENT: &'static str = "You are the VP of Research & Development. Lead innovation and research initiatives. Explore emerging technologies and novel approaches. Balance research with practical application. Drive technical breakthroughs and competitive advantage. Manage research teams and projects. Translate research into product capabilities.";

/// The prompt of the role `VPSales`.
pub const PROMPT_VP_SALES: &'static str = "You are the VP of Sales. Lead sales strategy and execution. Build high-performing sales teams. Drive revenue growth and market expansion. Develop sales processes and playbooks. Analyze sales metrics and optimize conversion. Build customer relationships and partnerships. Align sales with product and marketing strategies.";

/// The prompt of the role `ProductManager`.
pub const PROMPT_PRODUCT_MANAGER: &'static str = "You are a Product Manager. Define product requirements and priorities. Balance user needs, business goals, and technical constraints. Write clear specifications and user stories. Work closely with engineering and design. Analyze user feedback and product metrics. Make data-driven prioritization decisions. Drive product launches and iterations.";

/// The prompt of the role `SeniorProductManager`.
pub const PROMPT_SENIOR_PRODUCT_MANAGER: &'static str = "You are a Senior Product Manager. Lead product strategy for major features or areas. Mentor junior PMs and drive product excellence. Conduct deep user research and market analysis. Make complex tradeoffs and strategic decisions. Define product metrics and success criteria. Drive cross-functional alignment and execution.";

/// The prompt of the role `PrincipalProductManager`.
pub const PROMPT_PRINCIPAL_PRODUCT_MANAGER: &'static str = "You are a Principal Product Manager. Set product vision and long-term strategy. Lead flagship products or critical product areas. Influence company-wide product direction. Drive innovation and competitive differentiation. Mentor PM team and establish best practices. Make high-impact strategic decisions affecting multiple products.";

/// The prompt of the role `TechnicalProgramManager`.
pub const PROMPT_TECHNICAL_PROGRAM_MANAGER: &'static str = "You are a Technical Program Manager. Coordinate complex technical programs across teams. Manage dependencies, risks, and timelines. Ensure technical alignment and integration. Drive program execution and delivery. Facilitate communication between technical teams. Track progress and remove blockers. Balance scope, quality, and schedule.";

/// The prompt of the role `EngineeringProgramManager`.
pub const PROMPT_ENGINEERING_PROGRAM_MANAGER: &'static str = "You are an Engineering Program Manager. Lead large-scale engineering initiatives. Coordinate across multiple engineering teams and products. Manage program schedules and milestones. Ensure technical quality and architectural consistency. Drive process improvements. Facilitate technical planning and retrospectives.";

/// The prompt of the role `StrategicPlanningManager`.
pub const PROMPT_STRATEGIC_PLANNING_MANAGER: &'static str = "You are a Strategic Planning Manager. Develop organizational strategy and plans. Conduct market analysis and competitive research. Define strategic initiatives and objectives. Track strategy execution and progress. Analyze business performance and trends. Provide strategic recommendations to leadership.";

/// The prompt of the role `BusinessDevelopmentManager`.
pub const PROMPT_BUSINESS_DEVELOPMENT_MANAGER: &'static str = "You are a Business Development Manager. Identify and pursue growth opportunities. Build partnerships and strategic relationships. Evaluate market opportunities and business models. Negotiate deals and partnerships. Drive revenue through new channels and partnerships. Analyze market trends and competitive landscape.";

/// The prompt of the role `PartnershipManager`.
pub const PROMPT_PARTNERSHIP_MANAGER: &'static str = "You are a Partnership Manager. Build and manage strategic partnerships. Identify partnership opportunities aligned with business goals. Negotiate partnership terms. Manage partner relationships and joint initiatives. Drive partner success and mutual value. Measure partnership impact and ROI.";

/// The prompt of the role `DirectorOfPeople`.
pub const PROMPT_DIRECTOR_OF_PEOPLE: &'static str = "You are the Director of People. Lead people strategy and culture. Drive talent acquisition, development, and retention. Build strong organizational culture. Manage compensation, benefits, and people programs. Ensure employee engagement and satisfaction. Partner with leadership on organizational development. Address people challenges and conflicts.";

/// The prompt of the role `TalentAcquisitionManager`.
pub const PROMPT_TALENT_ACQUISITION_MANAGER: &'static str = "You are a Talent Acquisition Manager. Lead recruiting strategy and execution. Build talent pipelines and sourcing channels. Ensure quality and diversity in hiring. Partner with hiring managers on talent needs. Optimize recruiting processes and metrics. Build employer brand and candidate experience.";

/// The prompt of the role `SeniorRecruiter`.
pub const PROMPT_SENIOR_RECRUITER: &'static str = "You are a Senior Recruiter. Source and recruit top talent. Manage full-cycle recruiting for critical roles. Build relationships with candidates. Screen, interview, and assess candidates. Negotiate offers and close candidates. Maintain high-quality candidate pipeline. Drive positive candidate experience.";

/// The prompt of the role `LearningDevelopmentManager`.
pub const PROMPT_LEARNING_DEVELOPMENT_MANAGER: &'static str = "You are a Learning & Development Manager. Design and deliver learning programs. Identify skill gaps and development needs. Create training content and curricula. Facilitate workshops and development sessions. Measure learning impact and effectiveness. Build culture of continuous learning and growth.";

/// The prompt of the role `OrganizationalDevelopmentSpecialist`.
pub const PROMPT_ORGANIZATIONAL_DEVELOPMENT_SPECIALIST: &'static str = "You are an Organizational Development Specialist. Drive organizational effectiveness and change. Design organizational structures and processes. Facilitate team development and collaboration. Manage change initiatives and transformations. Conduct organizational assessments. Improve team dynamics and cross-functional collaboration.";

/// The prompt of the role `ProductMarketingManager`.
pub const PROMPT_PRODUCT_MARKETING_MANAGER: &'static str = "You are a Product Marketing Manager. Position products and craft messaging. Develop go-to-market strategies and launches. Create product collateral and content. Conduct competitive analysis and market research. Enable sales with product knowledge. Drive product adoption and customer success.";

/// The prompt of the role `TechnicalMarketingManager`.
pub const PROMPT_TECHNICAL_MARKETING_MANAGER: &'static str = "You are a Technical Marketing Manager. Create technical content and demonstrations. Translate technical capabilities into customer value. Develop technical marketing materials. Present at technical conferences and events. Build technical proof points and case studies. Work with engineering to showcase technical excellence.";

/// The prompt of the role `DeveloperAdvocate`.
pub const PROMPT_DEVELOPER_ADVOCATE: &'static str = "You are a Developer Advocate. Build developer community and engagement. Create technical content, demos, and tutorials. Present at developer events and conferences. Gather developer feedback and champion their needs. Build developer relationships. Drive developer adoption and satisfaction.";

/// The prompt of the role `CommunicationsManager`.
pub const PROMPT_COMMUNICATIONS_MANAGER: &'static str = "You are a Communications Manager. Manage internal and external communications. Craft messaging and communications strategy. Handle media relations and PR. Write press releases and announcements. Manage crisis communications. Ensure consistent brand voice and messaging.";

/// The prompt of the role `ContentStrategist`.
pub const PROMPT_CONTENT_STRATEGIST: &'static str = "You are a Content Strategist. Define content strategy and planning. Create compelling content across channels. Optimize content for engagement and conversion. Analyze content performance and iterate. Build content calendar and workflows. Ensure content aligns with brand and business goals.";

/// The prompt of the role `EnterpriseAccountExecutive`.
pub const PROMPT_ENTERPRISE_ACCOUNT_EXECUTIVE: &'static str = "You are an Enterprise Account Executive. Drive enterprise sales and revenue. Build relationships with key accounts. Understand customer needs and pain points. Present solutions and demonstrate value. Negotiate contracts and close deals. Manage sales pipeline and forecasting. Exceed revenue targets.";

/// The prompt of the role `SalesEngineer`.
pub const PROMPT_SALES_ENGINEER: &'static str = "You are a Sales Engineer. Provide technical expertise in sales process. Conduct technical demonstrations and proof of concepts. Answer technical questions. Design solutions that meet customer requirements. Bridge sales and engineering teams. Ensure technical feasibility of proposed solutions.";

/// The prompt of the role `CustomerSuccessManager`.
pub const PROMPT_CUSTOMER_SUCCESS_MANAGER: &'static str = "You are a Customer Success Manager. Ensure customer satisfaction and value realization. Onboard new customers and drive adoption. Build strong customer relationships. Identify expansion and upsell opportunities. Address customer challenges proactively. Measure and improve customer health scores.";

/// The prompt of the role `TechnicalAccountManager`.
pub const PROMPT_TECHNICAL_ACCOUNT_MANAGER: &'static str = "You are a Technical Account Manager. Provide technical guidance to strategic customers. Ensure successful technical implementation and integration. Troubleshoot complex issues. Drive product adoption and best practices. Build technical relationships. Advocate for customer needs to internal teams.";

/// The prompt of the role `SolutionsArchitect`.
pub const PROMPT_SOLUTIONS_ARCHITECT: &'static str = "You are a Solutions Architect. Design technical solutions for customer needs. Conduct technical discovery and requirements gathering. Create architecture proposals. Ensure solutions are scalable, secure, and aligned with best practices. Guide implementation and integration. Bridge customer needs and product capabilities.";

/// The prompt of the role `DesignDirector`.
pub const PROMPT_DESIGN_DIRECTOR: &'static str = "You are the Design Director. Lead design vision and strategy. Build and mentor design team. Ensure design excellence across products. Drive design thinking and user-centered approach. Set design standards and processes. Partner with product and engineering on experience. Champion user needs at all levels.";

/// The prompt of the role `PrincipalProductDesigner`.
pub const PROMPT_PRINCIPAL_PRODUCT_DESIGNER: &'static str = "You are a Principal Product Designer. Lead design for complex products and experiences. Conduct deep user research and testing. Create interaction designs and prototypes. Drive design innovation and excellence. Mentor other designers. Balance user needs, business goals, and technical constraints in designs.";

/// The prompt of the role `UXResearcher`.
pub const PROMPT_UX_RESEARCHER: &'static str = "You are a UX Researcher. Conduct user research to inform product decisions. Design and execute research studies (interviews, usability tests, surveys). Analyze research data and extract insights. Communicate findings to stakeholders. Build user understanding and empathy across organization. Guide product direction with data.";

/// The prompt of the role `IndustrialDesigner`.
pub const PROMPT_INDUSTRIAL_DESIGNER: &'static str = "You are an Industrial Designer. Design physical products and experiences. Create aesthetically pleasing and functional designs. Consider ergonomics and manufacturing. Prototype and iterate on physical designs. Balance form and function. Work with engineering on design for manufacturing.";

/// The prompt of the role `DirectorOfOperations`.
pub const PROMPT_DIRECTOR_OF_OPERATIONS: &'static str = "You are the Director of Operations. Lead operational strategy and execution. Optimize processes and systems for efficiency. Ensure operational reliability and quality. Manage operations teams and resources. Drive continuous improvement. Scale operations to support business growth.";

/// The prompt of the role `FacilitiesManager`.
pub const PROMPT_FACILITIES_MANAGER: &'static str = "You are a Facilities Manager. Manage physical facilities and workplace. Ensure safe, functional, and productive work environment. Manage vendors and contractors. Plan space and facilities for growth. Optimize facilities costs. Handle facilities issues and emergencies.";

/// The prompt of the role `EnvironmentalHealthSafetyManager`.
pub const PROMPT_ENVIRONMENTAL_HEALTH_SAFETY_MANAGER: &'static str = "You are an Environmental Health & Safety Manager. Ensure workplace safety and compliance. Develop and enforce safety policies and procedures. Conduct safety audits and training. Investigate incidents and implement corrective actions. Manage environmental compliance. Build culture of safety awareness.";

/// The prompt of the role `RiskManagementSpecialist`.
pub const PROMPT_RISK_MANAGEMENT_SPECIALIST: &'static str = "You are a Risk Management Specialist. Identify, assess, and mitigate organizational risks. Develop risk management strategies and frameworks. Monitor risk indicators and trends. Ensure business continuity and disaster recovery planning. Manage insurance and compliance. Advise leadership on risk decisions.";

/// The prompt of the role `ResearchEngineerScaling`.
pub const PROMPT_RESEARCH_ENGINEER_SCALING: &'static str = "You are a Research Engineer specializing in Scaling. Design distributed training systems. Optimize ML infrastructure for performance and cost. Scale models and data pipelines. Implement efficient distributed algorithms. Benchmark and profile system performance. Enable research breakthroughs through scalable infrastructure.";

/// The prompt of the role `ResearchEngineerAutonomy`.
pub const PROMPT_RESEARCH_ENGINEER_AUTONOMY: &'static str = "You are a Research Engineer specializing in Autonomy. Develop autonomous robot behaviors. Design perception, planning, and control systems. Implement and test autonomy algorithms. Work on sim-to-real transfer. Ensure safe and reliable autonomous operation. Push boundaries of robot capabilities.";

/// The prompt of the role `ResearchEngineerWorldModels`.
pub const PROMPT_RESEARCH_ENGINEER_WORLD_MODELS: &'static str = "You are a Research Engineer specializing in World Models. Build models of environment dynamics. Enable robots to predict and plan using world understanding. Implement model-based learning. Work on representation learning and prediction. Bridge perception and planning. Advance robot common-sense reasoning.";

/// The prompt of the role `ResearchEngineerRL`.
pub const PROMPT_RESEARCH_ENGINEER_RL: &'static str = "You are a Research Engineer specializing in Reinforcement Learning. Design RL algorithms for robots. Implement policy learning and optimization. Create reward structures and training environments. Scale RL training across compute resources. Enable robots to learn complex behaviors. Bridge RL research and practical deployment.";

/// The prompt of the role `AIResident`.
pub const PROMPT_AI_RESIDENT: &'static str = "You are an AI Resident. Explore cutting-edge AI and robotics research. Implement and experiment with novel approaches. Contribute to research projects. Build prototypes and demonstrations. Learn from full-time team members. Move between research and production work.";

/// The prompt of the role `SoftwareEngineerSimulation`.
pub const PROMPT_SOFTWARE_ENGINEER_SIMULATION: &'static str = "You are a Software Engineer specializing in Simulation. Build high-fidelity robot simulation environments. Implement physics engines and sensor simulation. Create realistic testing scenarios. Enable sim-to-real transfer. Optimize simulation performance. Support research and development with simulation tools.";

/// The prompt of the role `SoftwareEngineerPlatforms`.
pub const PROMPT_SOFTWARE_ENGINEER_PLATFORMS: &'static str = "You are a Software Engineer specializing in Platforms. Build core infrastructure and platform services. Design scalable, reliable systems. Create developer tools and frameworks. Enable other teams with platform capabilities. Ensure platform reliability and performance. Drive technical standardization.";

/// The prompt of the role `SoftwareEngineerEmbeddedSystems`.
pub const PROMPT_SOFTWARE_ENGINEER_EMBEDDED_SYSTEMS: &'static str = "You are a Software Engineer specializing in Embedded Systems. Develop firmware for robot hardware. Work close to hardware layer. Optimize for performance and resource constraints. Implement real-time control systems. Debug hardware-software integration issues. Ensure reliable embedded operation.";

/// The prompt of the role `ManufacturingEngineer`.
pub const PROMPT_MANUFACTURING_ENGINEER: &'static str = "You are a Manufacturing Engineer. Design and optimize manufacturing processes. Improve production efficiency and quality. Develop assembly procedures and tooling. Troubleshoot production issues. Scale manufacturing capacity. Balance cost, quality, and throughput.";

/// The prompt of the role `QualityEngineerManufacturing`.
pub const PROMPT_QUALITY_ENGINEER_MANUFACTURING: &'static str = "You are a Quality Engineer. Ensure product quality and reliability. Develop quality processes and standards. Conduct quality audits and testing. Analyze defects and drive root cause resolution. Implement quality improvements. Build culture of quality excellence.";

/// The prompt of the role `DataAnalyst`.
pub const PROMPT_DATA_ANALYST: &'static str = "You are a Data Analyst. Analyze data to drive insights and decisions. Build dashboards and reports. Query and transform data. Identify trends and patterns. Communicate findings to stakeholders. Support data-driven decision making across organization.";

/// The prompt written for a role, where one is.
pub open spec fn written_prompt(r: OrganizationRole) -> Option<Seq<char>> {
    match r {
        OrganizationRole::ChiefExecutiveOfficer => Some(PROMPT_CHIEF_EXECUTIVE_OFFICER@),
        OrganizationRole::ChiefTechnologyOfficer => Some(PROMPT_CHIEF_TECHNOLOGY_OFFICER@),
        OrganizationRole::ChiefOperatingOfficer => Some(PROMPT_CHIEF_OPERATING_OFFICER@),
        OrganizationRole::ChiefFinancialOfficer => Some(PROMPT_CHIEF_FINANCIAL_OFFICER@),
        OrganizationRole::ChiefProductOfficer => Some(PROMPT_CHIEF_PRODUCT_OFFICER@),
        OrganizationRole::ChiefMarketingOfficer => Some(PROMPT_CHIEF_MARKETING_OFFICER@),
        OrganizationRole::VPEngineering => Some(PROMPT_VP_ENGINEERING@),
        OrganizationRole::VPOperations => Some(PROMPT_VP_OPERATIONS@),
        OrganizationRole::VPResearchDevelopment => Some(PROMPT_VP_RESEARCH_DEVELOPMENT@),
        OrganizationRole::VPSales => Some(PROMPT_VP_SALES@),
        OrganizationRole::ProductManager => Some(PROMPT_PRODUCT_MANAGER@),
        OrganizationRole::SeniorProductManager => Some(PROMPT_SENIOR_PRODUCT_MANAGER@),
        OrganizationRole::PrincipalProductManager => Some(PROMPT_PRINCIPAL_PRODUCT_MANAGER@),
        OrganizationRole::TechnicalProgramManager => Some(PROMPT_TECHNICAL_PROGRAM_MANAGER@),
        OrganizationRole::EngineeringProgramManager => Some(PROMPT_ENGINEERING_PROGRAM_MANAGER@),
        OrganizationRole::StrategicPlanningManager => Some(PROMPT_STRATEGIC_PLANNING_MANAGER@),
        OrganizationRole::BusinessDevelopmentManager => Some(PROMPT_BUSINESS_DEVELOPMENT_MANAGER@),
        OrganizationRole::PartnershipManager => Some(PROMPT_PARTNERSHIP_MANAGER@),
        OrganizationRole::DirectorOfPeople => Some(PROMPT_DIRECTOR_OF_PEOPLE@),
        OrganizationRole::TalentAcquisitionManager => Some(PROMPT_TALENT_ACQUISITION_MANAGER@),
        OrganizationRole::SeniorRecruiter => Some(PROMPT_SENIOR_RECRUITER@),
        OrganizationRole::LearningDevelopmentManager => Some(PROMPT_LEARNING_DEVELOPMENT_MANAGER@),
        OrganizationRole::OrganizationalDevelopmentSpecialist => Some(PROMPT_ORGANIZATIONAL_DEVELOPMENT_SPECIALIST@),
        OrganizationRole::ProductMarketingManager => Some(PROMPT_PRODUCT_MARKETING_MANAGER@),
        OrganizationRole::TechnicalMarketingManager => Some(PROMPT_TECHNICAL_MARKETING_MANAGER@),
        OrganizationRole::DeveloperAdvocate => Some(PROMPT_DEVELOPER_ADVOCATE@),
        OrganizationRole::CommunicationsManager => Some(PROMPT_COMMUNICATIONS_MANAGER@),
        OrganizationRole::ContentStrategist => Some(PROMPT_CONTENT_STRATEGIST@),
        OrganizationRole::EnterpriseAccountExecutive => Some(PROMPT_ENTERPRISE_ACCOUNT_EXECUTIVE@),
        OrganizationRole::SalesEngineer => Some(PROMPT_SALES_ENGINEER@),
        OrganizationRole::CustomerSuccessManager => Some(PROMPT_CUSTOMER_SUCCESS_MANAGER@),
        OrganizationRole::TechnicalAccountManager => Some(PROMPT_TECHNICAL_ACCOUNT_MANAGER@),
        OrganizationRole::SolutionsArchitect => Some(PROMPT_SOLUTIONS_ARCHITECT@),
        OrganizationRole::DesignDirector => Some(PROMPT_DESIGN_DIRECTOR@),
        OrganizationRole::PrincipalProductDesigner => Some(PROMPT_PRINCIPAL_PRODUCT_DESIGNER@),
        OrganizationRole::UXResearcher => Some(PROMPT_UX_RESEARCHER@),
        OrganizationRole::IndustrialDesigner => Some(PROMPT_INDUSTRIAL_DESIGNER@),
        OrganizationRole::DirectorOfOperations => Some(PROMPT_DIRECTOR_OF_OPERATIONS@),
        OrganizationRole::FacilitiesManager => Some(PROMPT_FACILITIES_MANAGER@),
        OrganizationRole::EnvironmentalHealthSafetyManager => Some(PROMPT_ENVIRONMENTAL_HEALTH_SAFETY_MANAGER@),
        OrganizationRole::RiskManagementSpecialist => Some(PROMPT_RISK_MANAGEMENT_SPECIALIST@),
        OrganizationRole::ResearchEngineerScaling => Some(PROMPT_RESEARCH_ENGINEER_SCALING@),
        OrganizationRole::ResearchEngineerAutonomy => Some(PROMPT_RESEARCH_ENGINEER_AUTONOMY@),
        OrganizationRole::ResearchEngineerWorldModels => Some(PROMPT_RESEARCH_ENGINEER_WORLD_MODELS@),
        OrganizationRole::ResearchEngineerRL => Some(PROMPT_RESEARCH_ENGINEER_RL@),
        OrganizationRole::AIResident => Some(PROMPT_AI_RESIDENT@),
        OrganizationRole::SoftwareEngineerSimulation => Some(PROMPT_SOFTWARE_ENGINEER_SIMULATION@),
        OrganizationRole::SoftwareEngineerPlatforms => Some(PROMPT_SOFTWARE_ENGINEER_PLATFORMS@),
        OrganizationRole::SoftwareEngineerEmbeddedSystems => Some(PROMPT_SOFTWARE_ENGINEER_EMBEDDED_SYSTEMS@),
        OrganizationRole::ManufacturingEngineer => Some(PROMPT_MANUFACTURING_ENGINEER@),
        OrganizationRole::QualityEngineerManufacturing => Some(PROMPT_QUALITY_ENGINEER_MANUFACTURING@),
        OrganizationRole::DataAnalyst => Some(PROMPT_DATA_ANALYST@),
        _ => None,
    }
}

impl OrganizationRole {
    /// The category of this role.
    pub fn category(&self) -> (c: RoleCategory)
        ensures
            c == category_spec(*self),
    {
        match self {
            OrganizationRole::ResearchEngineerScaling | OrganizationRole::ResearchEngineerAutonomy | OrganizationRole::ResearchEngineerWorldModels | OrganizationRole::ResearchEngineerRL | OrganizationRole::ResearchEngineerDataInfrastructure | OrganizationRole::ResearchEngineerRobotCharacter | OrganizationRole::AIResident => RoleCategory::ResearchAI,
            OrganizationRole::SoftwareEngineerSimulation | OrganizationRole::SoftwareEngineerTeleoperation | OrganizationRole::SoftwareEngineerPlatforms | OrganizationRole::SoftwareEngineerOperatingSystem | OrganizationRole::SoftwareEngineerDevOps | OrganizationRole::SoftwareEngineerEmbeddedSystems | OrganizationRole::SoftwareEngineerSystems | OrganizationRole::SoftwareEngineerFrontend | OrganizationRole::SoftwareEngineerCloudInfrastructure | OrganizationRole::SoftwareEngineerERPSystems => RoleCategory::SoftwareEngineering,
            OrganizationRole::ProductSecurityEngineerOperatingSystem | OrganizationRole::ProductSecurityEngineerCloudInfrastructure | OrganizationRole::ProductSecurityEngineerCryptography | OrganizationRole::NetworkSecurityEngineer => RoleCategory::Security,
            OrganizationRole::ElectricalEngineerEntryLevel | OrganizationRole::ElectricalEngineerBatteryCharger | OrganizationRole::HardcoreElectricalEngineer | OrganizationRole::TechnicalLeadElectricalEngineering | OrganizationRole::EMIEMCEngineer | OrganizationRole::MechanicalEngineerAllLevels | OrganizationRole::RDEngineerHumanoidCore => RoleCategory::HardwareEngineering,
            OrganizationRole::SeniorRoboticsEngineerControls | OrganizationRole::SeniorRoboticsEngineerSoftware | OrganizationRole::RoboticsEngineerControlsTesting | OrganizationRole::SeniorAudioSystemsEngineer => RoleCategory::RoboticsEngineering,
            OrganizationRole::ManufacturingEngineer | OrganizationRole::AutomationEngineerManufacturing | OrganizationRole::TestEngineerManufacturing | OrganizationRole::BuildQualityEngineerElectrical | OrganizationRole::BuildQualityEngineerMechanical | OrganizationRole::ProductionLead | OrganizationRole::SeniorManagerProduction | OrganizationRole::AssemblyTechnician | OrganizationRole::CNCOperator | OrganizationRole::CNCProgrammer => RoleCategory::Manufacturing,
            OrganizationRole::GlobalSupplyManagerStructures | OrganizationRole::GlobalSupplyManagerMotorsMagnets | OrganizationRole::SupplierDevelopmentEngineerStructures | OrganizationRole::SupplierDevelopmentEngineerMotorsMagnets | OrganizationRole::SupplierDevelopmentEngineerEEE | OrganizationRole::NPIPlanner | OrganizationRole::NPIProjectManager | OrganizationRole::QualityInspectionSpecialist | OrganizationRole::QualityEngineerManufacturing | OrganizationRole::DataAnalyst => RoleCategory::SupplyChainQuality,
            OrganizationRole::EnterpriseEngineer | OrganizationRole::PrincipalEnterpriseITEngineer => RoleCategory::Infrastructure,
            OrganizationRole::SrServiceTrainingEngineer | OrganizationRole::SrRobotServiceTechnician | OrganizationRole::RobotOperator => RoleCategory::ServiceSupport,
            OrganizationRole::SoftgoodsEngineerPrototyping | OrganizationRole::WiringHarnessingEngineer | OrganizationRole::ElectricalEngineeringIntern | OrganizationRole::MechanicalEngineeringIntern | OrganizationRole::TestEngineerRD | OrganizationRole::HeadOfPhysicalRobotSafety => RoleCategory::Specializations,
            OrganizationRole::CounselEmploymentCompensation | OrganizationRole::CounselCommercialTrade | OrganizationRole::PayrollAccountant => RoleCategory::LegalFinance,
            OrganizationRole::ChiefExecutiveOfficer | OrganizationRole::ChiefTechnologyOfficer | OrganizationRole::ChiefOperatingOfficer | OrganizationRole::ChiefFinancialOfficer | OrganizationRole::ChiefProductOfficer | OrganizationRole::VPEngineering | OrganizationRole::VPOperations | OrganizationRole::VPResearchDevelopment => RoleCategory::ExecutiveLeadership,
            OrganizationRole::ProductManager | OrganizationRole::SeniorProductManager | OrganizationRole::PrincipalProductManager | OrganizationRole::TechnicalProgramManager | OrganizationRole::EngineeringProgramManager | OrganizationRole::StrategicPlanningManager | OrganizationRole::BusinessDevelopmentManager | OrganizationRole::PartnershipManager => RoleCategory::StrategicBusiness,
            OrganizationRole::DirectorOfPeople | OrganizationRole::TalentAcquisitionManager | OrganizationRole::SeniorRecruiter | OrganizationRole::LearningDevelopmentManager | OrganizationRole::OrganizationalDevelopmentSpecialist => RoleCategory::PeopleCulture,
            OrganizationRole::ChiefMarketingOfficer | OrganizationRole::ProductMarketingManager | OrganizationRole::TechnicalMarketingManager | OrganizationRole::DeveloperAdvocate | OrganizationRole::CommunicationsManager | OrganizationRole::ContentStrategist => RoleCategory::MarketingCommunications,
            OrganizationRole::VPSales | OrganizationRole::EnterpriseAccountExecutive | OrganizationRole::SalesEngineer | OrganizationRole::CustomerSuccessManager | OrganizationRole::TechnicalAccountManager | OrganizationRole::SolutionsArchitect => RoleCategory::CustomerSuccessSales,
            OrganizationRole::DirectorOfOperations | OrganizationRole::FacilitiesManager | OrganizationRole::EnvironmentalHealthSafetyManager | OrganizationRole::RiskManagementSpecialist => RoleCategory::OperationsFacilities,
            OrganizationRole::DesignDirector | OrganizationRole::PrincipalProductDesigner | OrganizationRole::UXResearcher | OrganizationRole::IndustrialDesigner => RoleCategory::DesignUX,
        }
    }

    /// The name of this role, as its variant is written.
    pub fn role_name(&self) -> (r: &'static str)
        ensures
            r@ == role_name_spec(*self),
    {
        match self {
            OrganizationRole::ResearchEngineerScaling => "ResearchEngineerScaling",
            OrganizationRole::ResearchEngineerAutonomy => "ResearchEngineerAutonomy",
            OrganizationRole::ResearchEngineerWorldModels => "ResearchEngineerWorldModels",
            OrganizationRole::ResearchEngineerRL => "ResearchEngineerRL",
            OrganizationRole::ResearchEngineerDataInfrastructure => "ResearchEngineerDataInfrastructure",
            OrganizationRole::ResearchEngineerRobotCharacter => "ResearchEngineerRobotCharacter",
            OrganizationRole::AIResident => "AIResident",
            OrganizationRole::SoftwareEngineerSimulation => "SoftwareEngineerSimulation",
            OrganizationRole::SoftwareEngineerTeleoperation => "SoftwareEngineerTeleoperation",
            OrganizationRole::SoftwareEngineerPlatforms => "SoftwareEngineerPlatforms",
            OrganizationRole::SoftwareEngineerOperatingSystem => "SoftwareEngineerOperatingSystem",
            OrganizationRole::SoftwareEngineerDevOps => "SoftwareEngineerDevOps",
            OrganizationRole::SoftwareEngineerEmbeddedSystems => "SoftwareEngineerEmbeddedSystems",
            OrganizationRole::SoftwareEngineerSystems => "SoftwareEngineerSystems",
            OrganizationRole::SoftwareEngineerFrontend => "SoftwareEngineerFrontend",
            OrganizationRole::SoftwareEngineerCloudInfrastructure => "SoftwareEngineerCloudInfrastructure",
            OrganizationRole::SoftwareEngineerERPSystems => "SoftwareEngineerERPSystems",
            OrganizationRole::ProductSecurityEngineerOperatingSystem => "ProductSecurityEngineerOperatingSystem",
            OrganizationRole::ProductSecurityEngineerCloudInfrastructure => "ProductSecurityEngineerCloudInfrastructure",
            OrganizationRole::ProductSecurityEngineerCryptography => "ProductSecurityEngineerCryptography",
            OrganizationRole::NetworkSecurityEngineer => "NetworkSecurityEngineer",
            OrganizationRole::EnterpriseEngineer => "EnterpriseEngineer",
            OrganizationRole::PrincipalEnterpriseITEngineer => "PrincipalEnterpriseITEngineer",
            OrganizationRole::ElectricalEngineerEntryLevel => "ElectricalEngineerEntryLevel",
            OrganizationRole::ElectricalEngineerBatteryCharger => "ElectricalEngineerBatteryCharger",
            OrganizationRole::HardcoreElectricalEngineer => "HardcoreElectricalEngineer",
            OrganizationRole::TechnicalLeadElectricalEngineering => "TechnicalLeadElectricalEngineering",
            OrganizationRole::EMIEMCEngineer => "EMIEMCEngineer",
            OrganizationRole::MechanicalEngineerAllLevels => "MechanicalEngineerAllLevels",
            OrganizationRole::RDEngineerHumanoidCore => "RDEngineerHumanoidCore",
            OrganizationRole::SeniorRoboticsEngineerControls => "SeniorRoboticsEngineerControls",
            OrganizationRole::SeniorRoboticsEngineerSoftware => "SeniorRoboticsEngineerSoftware",
            OrganizationRole::RoboticsEngineerControlsTesting => "RoboticsEngineerControlsTesting",
            OrganizationRole::SeniorAudioSystemsEngineer => "SeniorAudioSystemsEngineer",
            OrganizationRole::ManufacturingEngineer => "ManufacturingEngineer",
            OrganizationRole::AutomationEngineerManufacturing => "AutomationEngineerManufacturing",
            OrganizationRole::TestEngineerManufacturing => "TestEngineerManufacturing",
            OrganizationRole::BuildQualityEngineerElectrical => "BuildQualityEngineerElectrical",
            OrganizationRole::BuildQualityEngineerMechanical => "BuildQualityEngineerMechanical",
            OrganizationRole::ProductionLead => "ProductionLead",
            OrganizationRole::SeniorManagerProduction => "SeniorManagerProduction",
            OrganizationRole::AssemblyTechnician => "AssemblyTechnician",
            OrganizationRole::CNCOperator => "CNCOperator",
            OrganizationRole::CNCProgrammer => "CNCProgrammer",
            OrganizationRole::GlobalSupplyManagerStructures => "GlobalSupplyManagerStructures",
            OrganizationRole::GlobalSupplyManagerMotorsMagnets => "GlobalSupplyManagerMotorsMagnets",
            OrganizationRole::SupplierDevelopmentEngineerStructures => "SupplierDevelopmentEngineerStructures",
            OrganizationRole::SupplierDevelopmentEngineerMotorsMagnets => "SupplierDevelopmentEngineerMotorsMagnets",
            OrganizationRole::SupplierDevelopmentEngineerEEE => "SupplierDevelopmentEngineerEEE",
            OrganizationRole::NPIPlanner => "NPIPlanner",
            OrganizationRole::NPIProjectManager => "NPIProjectManager",
            OrganizationRole::QualityInspectionSpecialist => "QualityInspectionSpecialist",
            OrganizationRole::QualityEngineerManufacturing => "QualityEngineerManufacturing",
            OrganizationRole::DataAnalyst => "DataAnalyst",
            OrganizationRole::SrServiceTrainingEngineer => "SrServiceTrainingEngineer",
            OrganizationRole::SrRobotServiceTechnician => "SrRobotServiceTechnician",
            OrganizationRole::RobotOperator => "RobotOperator",
            OrganizationRole::SoftgoodsEngineerPrototyping => "SoftgoodsEngineerPrototyping",
            OrganizationRole::WiringHarnessingEngineer => "WiringHarnessingEngineer",
            OrganizationRole::ElectricalEngineeringIntern => "ElectricalEngineeringIntern",
            OrganizationRole::MechanicalEngineeringIntern => "MechanicalEngineeringIntern",
            OrganizationRole::TestEngineerRD => "TestEngineerRD",
            OrganizationRole::HeadOfPhysicalRobotSafety => "HeadOfPhysicalRobotSafety",
            OrganizationRole::CounselEmploymentCompensation => "CounselEmploymentCompensation",
            OrganizationRole::CounselCommercialTrade => "CounselCommercialTrade",
            OrganizationRole::PayrollAccountant => "PayrollAccountant",
            OrganizationRole::ChiefExecutiveOfficer => "ChiefExecutiveOfficer",
            OrganizationRole::ChiefTechnologyOfficer => "ChiefTechnologyOfficer",
            OrganizationRole::ChiefOperatingOfficer => "ChiefOperatingOfficer",
            OrganizationRole::ChiefFinancialOfficer => "ChiefFinancialOfficer",
            OrganizationRole::ChiefProductOfficer => "ChiefProductOfficer",
            OrganizationRole::VPEngineering => "VPEngineering",
            OrganizationRole::VPOperations => "VPOperations",
            OrganizationRole::VPResearchDevelopment => "VPResearchDevelopment",
            OrganizationRole::ProductManager => "ProductManager",
            OrganizationRole::SeniorProductManager => "SeniorProductManager",
            OrganizationRole::PrincipalProductManager => "PrincipalProductManager",
            OrganizationRole::TechnicalProgramManager => "TechnicalProgramManager",
            OrganizationRole::EngineeringProgramManager => "EngineeringProgramManager",
            OrganizationRole::StrategicPlanningManager => "StrategicPlanningManager",
            OrganizationRole::BusinessDevelopmentManager => "BusinessDevelopmentManager",
            OrganizationRole::PartnershipManager => "PartnershipManager",
            OrganizationRole::DirectorOfPeople => "DirectorOfPeople",
            OrganizationRole::TalentAcquisitionManager => "TalentAcquisitionManager",
            OrganizationRole::SeniorRecruiter => "SeniorRecruiter",
            OrganizationRole::LearningDevelopmentManager => "LearningDevelopmentManager",
            OrganizationRole::OrganizationalDevelopmentSpecialist => "OrganizationalDevelopmentSpecialist",
            OrganizationRole::ChiefMarketingOfficer => "ChiefMarketingOfficer",
            OrganizationRole::ProductMarketingManager => "ProductMarketingManager",
            OrganizationRole::TechnicalMarketingManager => "TechnicalMarketingManager",
            OrganizationRole::DeveloperAdvocate => "DeveloperAdvocate",
            OrganizationRole::CommunicationsManager => "CommunicationsManager",
            OrganizationRole::ContentStrategist => "ContentStrategist",
            OrganizationRole::VPSales => "VPSales",
            OrganizationRole::EnterpriseAccountExecutive => "EnterpriseAccountExecutive",
            OrganizationRole::SalesEngineer => "SalesEngineer",
            OrganizationRole::CustomerSuccessManager => "CustomerSuccessManager",
            OrganizationRole::TechnicalAccountManager => "TechnicalAccountManager",
            OrganizationRole::SolutionsArchitect => "SolutionsArchitect",
            OrganizationRole::DirectorOfOperations => "DirectorOfOperations",
            OrganizationRole::FacilitiesManager => "FacilitiesManager",
            OrganizationRole::EnvironmentalHealthSafetyManager => "EnvironmentalHealthSafetyManager",
            OrganizationRole::RiskManagementSpecialist => "RiskManagementSpecialist",
            OrganizationRole::DesignDirector => "DesignDirector",
            OrganizationRole::PrincipalProductDesigner => "PrincipalProductDesigner",
            OrganizationRole::UXResearcher => "UXResearcher",
            OrganizationRole::IndustrialDesigner => "IndustrialDesigner",
        }
    }

    /// The prompt written for this role, where one is.
    pub fn written_prompt(&self) -> (r: Option<&'static str>)
        ensures
            match r {
                Some(t) => written_prompt(*self) == Some(t@),
                None => written_prompt(*self) is None,
            },
    {
        match self {
            OrganizationRole::ChiefExecutiveOfficer => Some(PROMPT_CHIEF_EXECUTIVE_OFFICER),
            OrganizationRole::ChiefTechnologyOfficer => Some(PROMPT_CHIEF_TECHNOLOGY_OFFICER),
            OrganizationRole::ChiefOperatingOfficer => Some(PROMPT_CHIEF_OPERATING_OFFICER),
            OrganizationRole::ChiefFinancialOfficer => Some(PROMPT_CHIEF_FINANCIAL_OFFICER),
            OrganizationRole::ChiefProductOfficer => Some(PROMPT_CHIEF_PRODUCT_OFFICER),
            OrganizationRole::ChiefMarketingOfficer => Some(PROMPT_CHIEF_MARKETING_OFFICER),
            OrganizationRole::VPEngineering => Some(PROMPT_VP_ENGINEERING),
            OrganizationRole::VPOperations => Some(PROMPT_VP_OPERATIONS),
            OrganizationRole::VPResearchDevelopment => Some(PROMPT_VP_RESEARCH_DEVELOPMENT),
            OrganizationRole::VPSales => Some(PROMPT_VP_SALES),
            OrganizationRole::ProductManager => Some(PROMPT_PRODUCT_MANAGER),
            OrganizationRole::SeniorProductManager => Some(PROMPT_SENIOR_PRODUCT_MANAGER),
            OrganizationRole::PrincipalProductManager => Some(PROMPT_PRINCIPAL_PRODUCT_MANAGER),
            OrganizationRole::TechnicalProgramManager => Some(PROMPT_TECHNICAL_PROGRAM_MANAGER),
            OrganizationRole::EngineeringProgramManager => Some(PROMPT_ENGINEERING_PROGRAM_MANAGER),
            OrganizationRole::StrategicPlanningManager => Some(PROMPT_STRATEGIC_PLANNING_MANAGER),
            OrganizationRole::BusinessDevelopmentManager => Some(PROMPT_BUSINESS_DEVELOPMENT_MANAGER),
            OrganizationRole::PartnershipManager => Some(PROMPT_PARTNERSHIP_MANAGER),
            OrganizationRole::DirectorOfPeople => Some(PROMPT_DIRECTOR_OF_PEOPLE),
            OrganizationRole::TalentAcquisitionManager => Some(PROMPT_TALENT_ACQUISITION_MANAGER),
            OrganizationRole::SeniorRecruiter => Some(PROMPT_SENIOR_RECRUITER),
            OrganizationRole::LearningDevelopmentManager => Some(PROMPT_LEARNING_DEVELOPMENT_MANAGER),
            OrganizationRole::OrganizationalDevelopmentSpecialist => Some(PROMPT_ORGANIZATIONAL_DEVELOPMENT_SPECIALIST),
            OrganizationRole::ProductMarketingManager => Some(PROMPT_PRODUCT_MARKETING_MANAGER),
            OrganizationRole::TechnicalMarketingManager => Some(PROMPT_TECHNICAL_MARKETING_MANAGER),
            OrganizationRole::DeveloperAdvocate => Some(PROMPT_DEVELOPER_ADVOCATE),
            OrganizationRole::CommunicationsManager => Some(PROMPT_COMMUNICATIONS_MANAGER),
            OrganizationRole::ContentStrategist => Some(PROMPT_CONTENT_STRATEGIST),
            OrganizationRole::EnterpriseAccountExecutive => Some(PROMPT_ENTERPRISE_ACCOUNT_EXECUTIVE),
            OrganizationRole::SalesEngineer => Some(PROMPT_SALES_ENGINEER),
            OrganizationRole::CustomerSuccessManager => Some(PROMPT_CUSTOMER_SUCCESS_MANAGER),
            OrganizationRole::TechnicalAccountManager => Some(PROMPT_TECHNICAL_ACCOUNT_MANAGER),
            OrganizationRole::SolutionsArchitect => Some(PROMPT_SOLUTIONS_ARCHITECT),
            OrganizationRole::DesignDirector => Some(PROMPT_DESIGN_DIRECTOR),
            OrganizationRole::PrincipalProductDesigner => Some(PROMPT_PRINCIPAL_PRODUCT_DESIGNER),
            OrganizationRole::UXResearcher => Some(PROMPT_UX_RESEARCHER),
            OrganizationRole::IndustrialDesigner => Some(PROMPT_INDUSTRIAL_DESIGNER),
            OrganizationRole::DirectorOfOperations => Some(PROMPT_DIRECTOR_OF_OPERATIONS),
            OrganizationRole::FacilitiesManager => Some(PROMPT_FACILITIES_MANAGER),
            OrganizationRole::EnvironmentalHealthSafetyManager => Some(PROMPT_ENVIRONMENTAL_HEALTH_SAFETY_MANAGER),
            OrganizationRole::RiskManagementSpecialist => Some(PROMPT_RISK_MANAGEMENT_SPECIALIST),
            OrganizationRole::ResearchEngineerScaling => Some(PROMPT_RESEARCH_ENGINEER_SCALING),
            OrganizationRole::ResearchEngineerAutonomy => Some(PROMPT_RESEARCH_ENGINEER_AUTONOMY),
            OrganizationRole::ResearchEngineerWorldModels => Some(PROMPT_RESEARCH_ENGINEER_WORLD_MODELS),
            OrganizationRole::ResearchEngineerRL => Some(PROMPT_RESEARCH_ENGINEER_RL),
            OrganizationRole::AIResident => Some(PROMPT_AI_RESIDENT),
            OrganizationRole::SoftwareEngineerSimulation => Some(PROMPT_SOFTWARE_ENGINEER_SIMULATION),
            OrganizationRole::SoftwareEngineerPlatforms => Some(PROMPT_SOFTWARE_ENGINEER_PLATFORMS),
            OrganizationRole::SoftwareEngineerEmbeddedSystems => Some(PROMPT_SOFTWARE_ENGINEER_EMBEDDED_SYSTEMS),
            OrganizationRole::ManufacturingEngineer => Some(PROMPT_MANUFACTURING_ENGINEER),
            OrganizationRole::QualityEngineerManufacturing => Some(PROMPT_QUALITY_ENGINEER_MANUFACTURING),
            OrganizationRole::DataAnalyst => Some(PROMPT_DATA_ANALYST),
            _ => None,
        }
    }
}

} // verus!
