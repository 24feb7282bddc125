//! What the e-mail copies of in-app notifications say, in English, Brazilian
//! Portuguese and Spanish. `{x}` marks a place to fill in.

use vstd::prelude::*;

verus! {

pub const OWNER: [&'static str; 3] = [
    "Owner",
    "Dono",
    "Propietario",
];

pub const BAND_ADMIN: [&'static str; 3] = [
    "Admin",
    "Administrador",
    "Administrador",
];

pub const BAND_MODERATOR: [&'static str; 3] = [
    "Moderator",
    "Moderador",
    "Moderador",
];

pub const MEMBER: [&'static str; 3] = [
    "Member",
    "Integrante",
    "Integrante",
];

pub const ADMINISTRATOR: [&'static str; 3] = [
    "Administrator",
    "Administrador",
    "Administrador",
];

pub const MODERATOR: [&'static str; 3] = [
    "Moderator",
    "Moderador",
    "Moderador",
];

pub const USER: [&'static str; 3] = [
    "User",
    "Usuário",
    "Usuario",
];

pub const ROLE_TITLE: [&'static str; 3] = [
    "Your role in {b} changed",
    "Seu papel na banda {b} mudou",
    "Tu rol en la banda {b} cambió",
];

pub const ROLE_LINE: [&'static str; 3] = [
    "Your role in the band {b} changed from {o} to {n}.",
    "Seu papel na banda {b} passou de {o} para {n}.",
    "Tu rol en la banda {b} pasó de {o} a {n}.",
];

pub const REMOVED_TITLE: [&'static str; 3] = [
    "You were removed from the band {b}",
    "Você foi removido da banda {b}",
    "Te retiraron de la banda {b}",
];

pub const REMOVED_LINE: [&'static str; 3] = [
    "You are no longer a member of {b}. The personal songs and setlists of your account were not affected.",
    "Você não faz mais parte da banda {b}. As músicas e setlists pessoais da sua conta não foram afetadas.",
    "Ya no formas parte de la banda {b}. Las canciones y setlists personales de tu cuenta no se vieron afectadas.",
];

pub const ADDED_TITLE: [&'static str; 3] = [
    "You were added to the band {b}",
    "Você foi adicionado à banda {b}",
    "Te agregaron a la banda {b}",
];

pub const ADDED_LINE: [&'static str; 3] = [
    "The Setlyst team added you to the band {b} as {r}.",
    "A equipe do Setlyst adicionou você à banda {b} como {r}.",
    "El equipo de Setlyst te agregó a la banda {b} como {r}.",
];

pub const PLATFORM_TITLE: [&'static str; 3] = [
    "Your role on Setlyst changed",
    "Seu papel no Setlyst mudou",
    "Tu rol en Setlyst cambió",
];

pub const PLATFORM_LINE: [&'static str; 3] = [
    "Your role on Setlyst changed from {o} to {n}.",
    "Seu papel no Setlyst passou de {o} para {n}.",
    "Tu rol en Setlyst pasó de {o} a {n}.",
];

pub const LINK_GIG_LINE: [&'static str; 3] = [
    "The public link of the gig \"{t}\" was disabled by the Setlyst team.",
    "O link público do show \"{t}\" foi desativado pela equipe do Setlyst.",
    "El equipo de Setlyst desactivó el enlace público del concierto \"{t}\".",
];

pub const LINK_SETLIST_LINE: [&'static str; 3] = [
    "The public link of the setlist \"{t}\" was disabled by the Setlyst team.",
    "O link público da setlist \"{t}\" foi desativado pela equipe do Setlyst.",
    "El equipo de Setlyst desactivó el enlace público de la setlist \"{t}\".",
];

pub const LINK_REASON: [&'static str; 3] = [
    "Reason:",
    "Motivo:",
    "Motivo:",
];

pub const LINK_TITLE: [&'static str; 3] = [
    "A public link was disabled",
    "Um link público foi desativado",
    "Se desactivó un enlace público",
];

pub const ANNOUNCEMENT_LINE: [&'static str; 3] = [
    "There is a new announcement from the Setlyst team.",
    "Há um novo aviso da equipe do Setlyst.",
    "Hay un nuevo aviso del equipo de Setlyst.",
];

pub const RELEASE_TITLE: [&'static str; 3] = [
    "What's new in Setlyst {v}",
    "Novidades do Setlyst: versão {v}",
    "Novedades de Setlyst: versión {v}",
];

pub const RELEASE_LINE: [&'static str; 3] = [
    "A new version of Setlyst is available. See what changed.",
    "Uma nova versão do Setlyst está disponível. Veja o que mudou.",
    "Hay una nueva versión de Setlyst disponible. Mira qué cambió.",
];

pub const SUGGESTED_TITLE: [&'static str; 3] = [
    "New suggestion in {b}",
    "Nova sugestão na banda {b}",
    "Nueva sugerencia en {b}",
];

pub const SUGGESTED_LINE: [&'static str; 3] = [
    "{u} suggested the song \"{s}\" for the band {b}. Vote on it or review it on the band page.",
    "{u} sugeriu a música \"{s}\" para a banda {b}. Vote ou avalie a sugestão na página da banda.",
    "{u} sugirió la canción \"{s}\" para la banda {b}. Vota o revisa la sugerencia en la página de la banda.",
];

pub const ACCEPTED: [&'static str; 3] = [
    "accepted",
    "aceita",
    "aceptada",
];

pub const DECLINED: [&'static str; 3] = [
    "declined",
    "recusada",
    "rechazada",
];

pub const WITHDRAWN: [&'static str; 3] = [
    "withdrawn",
    "retirada",
    "retirada",
];

pub const RESOLVED_TITLE: [&'static str; 3] = [
    "Your suggestion was {st}",
    "Sua sugestão foi {st}",
    "Tu sugerencia fue {st}",
];

pub const RESOLVED_LINE: [&'static str; 3] = [
    "The suggestion of the song \"{s}\" in the band {b} was {st}.",
    "A sugestão da música \"{s}\" na banda {b} foi {st}.",
    "La sugerencia de la canción \"{s}\" en la banda {b} fue {st}.",
];

pub const AVATAR_TITLE: [&'static str; 3] = [
    "Your profile picture was removed",
    "Sua foto de perfil foi removida",
    "Se eliminó tu foto de perfil",
];

pub const AVATAR_LINE: [&'static str; 3] = [
    "The Setlyst team removed your profile picture because it did not follow the Community Guidelines.",
    "A equipe do Setlyst removeu sua foto de perfil por não seguir as Diretrizes da Comunidade.",
    "El equipo de Setlyst eliminó tu foto de perfil porque no seguía las Normas de la Comunidad.",
];

pub const USERNAME_TITLE: [&'static str; 3] = [
    "Your username was reset",
    "Seu nome de usuário foi redefinido",
    "Se restableció tu nombre de usuario",
];

pub const USERNAME_LINE: [&'static str; 3] = [
    "The Setlyst team replaced your username because it did not follow the Community Guidelines. You can choose a new one in Settings.",
    "A equipe do Setlyst substituiu seu nome de usuário por não seguir as Diretrizes da Comunidade. Você pode escolher um novo nome em Configurações.",
    "El equipo de Setlyst reemplazó tu nombre de usuario porque no seguía las Normas de la Comunidad. Puedes elegir uno nuevo en Configuración.",
];

pub const LOGO_TITLE: [&'static str; 3] = [
    "A band logo was removed",
    "O logo de uma banda foi removido",
    "Se eliminó el logo de una banda",
];

pub const LOGO_LINE: [&'static str; 3] = [
    "The Setlyst team removed the logo of the band {b} because it did not follow the Community Guidelines.",
    "A equipe do Setlyst removeu o logo da banda {b} por não seguir as Diretrizes da Comunidade.",
    "El equipo de Setlyst eliminó el logo de la banda {b} porque no seguía las Normas de la Comunidad.",
];

pub const TEAM_NOTE: [&'static str; 3] = [
    "Note from the team:",
    "Observação da equipe:",
    "Nota del equipo:",
];

pub const CREDITS_REFERRER: [&'static str; 3] = [
    "Thank you for recommending Setlyst. Someone you referred confirmed their email.",
    "Obrigado por indicar o Setlyst. Uma pessoa que você indicou confirmou o e-mail.",
    "Gracias por recomendar Setlyst. Una persona que invitaste confirmó su correo.",
];

pub const CREDITS_REFERRED: [&'static str; 3] = [
    "You received welcome credits for joining through a referral.",
    "Você recebeu créditos de boas-vindas por entrar com uma indicação.",
    "Recibiste créditos de bienvenida por unirte con una invitación.",
];

pub const CREDITS_PROMO: [&'static str; 3] = [
    "Credits from a promo code were added to your balance.",
    "Créditos de um código promocional foram adicionados ao seu saldo.",
    "Se agregaron a tu saldo créditos de un código promocional.",
];

pub const CREDITS_TEAM: [&'static str; 3] = [
    "The Setlyst team added credits to your balance.",
    "A equipe do Setlyst adicionou créditos ao seu saldo.",
    "El equipo de Setlyst agregó créditos a tu saldo.",
];

pub const CREDITS_TITLE: [&'static str; 3] = [
    "You received {n} credits",
    "Você recebeu {n} créditos",
    "Recibiste {n} créditos",
];

pub const CREDITS_USE: [&'static str; 3] = [
    "Use your credits under Settings, in the Subscription section.",
    "Use os créditos em Configurações, na seção Assinatura.",
    "Usa tus créditos en Configuración, en la sección Suscripción.",
];

pub const UPDATED_TITLE: [&'static str; 3] = [
    "Your Setlyst account was updated",
    "Sua conta do Setlyst foi atualizada",
    "Se actualizó tu cuenta de Setlyst",
];

pub const UPDATED_LINE: [&'static str; 3] = [
    "Open Setlyst to see the details.",
    "Abra o Setlyst para ver os detalhes.",
    "Abre Setlyst para ver los detalles.",
];

} // verus!
