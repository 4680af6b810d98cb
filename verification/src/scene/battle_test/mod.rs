pub mod damage;
pub mod hits;
pub mod sys_consecration;
pub mod sys_attack_hit;
pub mod sys_dash;
pub mod sys_divine_stance;
pub mod sys_enemy_ai;
pub mod sys_facing_lock;
pub mod sys_guardian_shield;
pub mod sys_knight_attack_hit;
pub mod sys_peon;
pub mod sys_ramhead_ai;
pub mod sys_shield_toss;
pub mod sys_skill;
pub mod sys_swords_skill;
pub mod sys_wave_director;
